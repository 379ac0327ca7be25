use wp_query_rs::{
    DateQuery, DateQueryAfterBefore, MetaQuery, MetaQueryable, MetaRelation, ParamBuilder,
    PostQueryable, PostStatus, PostType, QueryAndValues, QueryBuilder, SqlOrder,
    SqlSearchOperators, TaxQuery, TaxRelation, WpOrderBy,
};

#[test]
fn param_builder_can_add_author() {
    let id = 1;
    let q = ParamBuilder::new().author(id);
    assert_eq!(id, q.0.author.unwrap());
}

#[test]
fn param_builder_can_add_author_in() {
    let id = 1;
    let q = ParamBuilder::new().author__in(id);
    assert_eq!(&id, q.0.author__in.unwrap().first().unwrap());
}

#[test]
fn param_builder_can_add_author_not_in() {
    let id = 1;
    let q = ParamBuilder::new().author__not_in(id);
    assert_eq!(id, *q.0.author__not_in.unwrap().first().unwrap());
}

#[test]
fn param_builder_can_add_category() {
    let cat = 1;
    let q = ParamBuilder::new().cat(cat);
    assert_eq!(cat, q.0.term_and.unwrap()[0]);
}

#[test]
fn param_builder_can_add_category_and() {
    let id = 1;
    let q = ParamBuilder::new().category__and(id);
    assert_eq!(id, *q.0.term_and.unwrap().first().unwrap());
}

#[test]
fn param_builder_can_add_category_in() {
    let id = 1;
    let q = ParamBuilder::new().category__in(id);
    assert_eq!(id, *q.0.term_in.unwrap().first().unwrap());
}

#[test]
fn param_builder_can_add_category_not_in() {
    let id = 1;
    let q = ParamBuilder::new().category__not_in(id);
    assert_eq!(id, *q.0.term_not_in.unwrap().first().unwrap());
}

#[test]
fn param_builder_can_add_tag() {
    let tag = "Tag";
    let q = ParamBuilder::new().tag(tag);
    assert_eq!(tag, q.0.term_slug_and.unwrap()[0]);
}

#[test]
fn can_add_tag_and() {
    let q = ParamBuilder::new().tag__and(42).tag__and(27);

    let tag_and = q.0.term_and.unwrap();
    assert_eq!(tag_and[0], 42);
    assert_eq!(tag_and[1], 27);
}

#[test]
fn can_add_tag_in() {
    let q = ParamBuilder::new().tag__in(42).tag__in(27);

    let tag_in = q.0.term_in.unwrap();
    assert_eq!(tag_in[0], 42);
    assert_eq!(tag_in[1], 27);
}

#[test]
fn can_add_tag_not_in() {
    let q = ParamBuilder::new().tag__not_in(42).tag__not_in(27);

    let tag_in = q.0.term_not_in.unwrap();
    assert_eq!(tag_in[0], 42);
    assert_eq!(tag_in[1], 27);
}

#[test]
fn can_add_tag_slug_and() {
    let q = ParamBuilder::new()
        .tag_slug__and("russian")
        .tag_slug__and("food");

    let tag_slug_and = q.0.term_slug_and.unwrap();
    assert_eq!(tag_slug_and[0], String::from("russian"));
    assert_eq!(tag_slug_and[1], String::from("food"));
}

#[test]
fn can_add_tag_slug_in() {
    let q = ParamBuilder::new()
        .tag_slug__in("russian")
        .tag_slug__in("food");

    let tag_slug_in = q.0.term_slug_in.unwrap();
    assert_eq!(tag_slug_in[0], String::from("russian"));
    assert_eq!(tag_slug_in[1], String::from("food"));
}

#[test]
fn param_builder_can_add_single_tax() {
    let terms = vec![String::from("1")];
    let tax = TaxQuery::new("custom_tax", terms.clone());
    let q = ParamBuilder::new().tax_query(tax, None);
    let stored = q.0.tax_query.unwrap();
    assert!(stored.get(&TaxRelation::Single).is_some());
    let stored = stored.get(&TaxRelation::Single).unwrap().first().unwrap();
    assert_eq!(stored.taxonomy, "custom_tax");
    assert_eq!(stored.terms, terms);
}

#[test]
fn param_builder_can_add_multiple_tax() {
    let terms = vec![String::from("1")];
    let tax1 = TaxQuery::new("custom_tax", terms.clone());
    let tax2 = TaxQuery::new("category", terms.clone());
    let tax3 = TaxQuery::new("cust_2", terms.clone());
    let q = ParamBuilder::new()
        .tax_query(tax1, Some(TaxRelation::And))
        .tax_query(tax2, Some(TaxRelation::And))
        .tax_query(tax3, Some(TaxRelation::Or));

    let created = q.0.tax_query.unwrap();
    assert_eq!(created.len(), 2);
    assert_eq!(created.get(&TaxRelation::And).unwrap().len(), 2);
    assert_eq!(created.get(&TaxRelation::Or).unwrap().len(), 1);
}

#[test]
fn param_builder_can_add_post_params() {
    let q = ParamBuilder::new()
        .p(1)
        .post_parent(2)
        .post_status(PostStatus::Publish);
    assert_eq!(q.0.p.unwrap(), 1);
    assert_eq!(q.0.post_parent.unwrap(), 2);
    assert_eq!(q.0.post_status.unwrap(), PostStatus::Publish);
}

#[test]
fn param_builder_can_add_post_parent_in() {
    let id = 1;
    let q = ParamBuilder::new().post_parent__in(id);
    assert_eq!(id, *q.0.post_parent__in.unwrap().first().unwrap());
}

#[test]
fn param_builder_can_add_post_parent_not_in() {
    let id = 1;
    let q = ParamBuilder::new().post_parent__not_in(id);
    assert_eq!(id, *q.0.post_parent__not_in.unwrap().first().unwrap());
}

#[test]
fn param_builder_can_add_post_in() {
    let id = 1;
    let q = ParamBuilder::new().post__in(id);
    assert_eq!(id, *q.0.post__in.unwrap().first().unwrap());
}

#[test]
fn param_builder_can_add_post_not_in() {
    let id = 1;
    let q = ParamBuilder::new().post__not_in(id);
    assert_eq!(id, *q.0.post__not_in.unwrap().first().unwrap());
}

#[test]
fn param_builder_can_add_post_name_in() {
    let q = ParamBuilder::new()
        .post_name__in("malcolm-x")
        .post_name__in("mlk");
    let r = q.0.post_name__in.unwrap();
    assert_eq!(r.first().unwrap(), &"malcolm-x");
    assert_eq!(r.len(), 2);
}

#[test]
fn param_builder_can_add_post_type() {
    let q = ParamBuilder::new().post_type(PostType::Page);
    assert_eq!(q.0.post_type.unwrap().first().unwrap(), &PostType::Page);
}

#[test]
fn param_builder_can_add_multiple_post_types() {
    let q = ParamBuilder::new()
        .post_type(PostType::Post)
        .post_type(PostType::Page)
        .p(1)
        .post_parent(2)
        .post_status(PostStatus::Publish);
    assert_eq!(q.0.post_type.unwrap().len(), 2);
}

#[test]
fn default_post_type() {
    let q = ParamBuilder::new();
    assert!(q.0.post_type.is_none());
    let QueryAndValues(text, _) = QueryBuilder::new(ParamBuilder::new().params()).query();
    assert!(text.contains("post_type = 'post'"));
}

#[test]
fn post_type_all_admits_every_type() {
    let q = ParamBuilder::new().post_type(PostType::Page).post_type_all();
    assert_eq!(q.0.post_type, Some(vec![]));
    let QueryAndValues(text, _) = QueryBuilder::new(q.params()).query();
    assert!(!text.contains("wp_posts.post_type"));
}

#[test]
fn param_builder_can_add_comment_params() {
    let q = ParamBuilder::new().comment_count(2);
    assert_eq!(q.0.comment_count.unwrap(), 2);
}

#[test]
fn param_builder_can_add_pagination_params() {
    let q = ParamBuilder::new().page(3).posts_per_page(20);
    assert_eq!(q.0.page.unwrap(), 2);
    assert_eq!(q.0.posts_per_page.unwrap(), 20);
}

#[test]
fn param_builder_can_add_orderby_params() {
    let q = ParamBuilder::new()
        .orderby(WpOrderBy::Author)
        .order(SqlOrder::Asc);
    assert_eq!(q.0.orderby.unwrap(), WpOrderBy::Author);
    assert_eq!(q.0.order.unwrap(), SqlOrder::Asc);
}

#[test]
fn param_builder_can_add_date_params() {
    let q = ParamBuilder::new()
        .year(2023)
        .monthnum(12)
        .monthnum(1)
        .w(53)
        .day(31)
        .hour(23)
        .minute(60)
        .second(60);
    assert_eq!(q.0.year.unwrap(), 2023);
    assert_eq!(q.0.monthnum.unwrap(), 1);
    assert_eq!(q.0.w.unwrap(), 53);
    assert_eq!(q.0.day.unwrap(), 31);
    assert_eq!(q.0.hour.unwrap(), 23);
    assert_eq!(q.0.minute.unwrap(), 60);
    assert_eq!(q.0.second.unwrap(), 60);
}

#[test]
fn param_builder_can_add_date_queries() {
    let dq1 = DateQuery::new().after(DateQueryAfterBefore::new(2022, 2, 2));
    let dq2 = DateQuery::new();
    let q = ParamBuilder::new().date_query(dq1).date_query(dq2);
    let dq = q.0.date_query.unwrap();
    assert_eq!(dq.len(), 2);
    assert_eq!(dq.first().unwrap().after.as_ref().unwrap().day, 2);
}

#[test]
fn param_builder_m_clears_year_and_monthnum() {
    let q = ParamBuilder::new().year(2000).monthnum(7).m(202308);
    assert!(q.0.year.is_none());
    assert!(q.0.monthnum.is_none());
    assert_eq!(q.0.m.unwrap(), 202308);
}

#[test]
fn param_builder_can_set_single_meta() {
    let q = ParamBuilder::new()
        .meta_key("key1")
        .meta_value("a")
        .meta_compare(SqlSearchOperators::Like);
    assert_eq!(q.0.meta_key.unwrap(), "key1");
    assert_eq!(q.0.meta_value.unwrap(), "a");
    assert_eq!(q.0.meta_compare.unwrap(), SqlSearchOperators::Like);
}

#[test]
fn param_builder_can_set_multiple_meta() {
    let q = ParamBuilder::new()
        .meta_key("key1")
        .meta_query(
            MetaQuery {
                key: String::from("key1"),
                value: String::from("1"),
                compare: SqlSearchOperators::Equals,
            },
            MetaRelation::And,
        )
        .meta_query(
            MetaQuery {
                key: String::from("key2"),
                value: String::from("2"),
                compare: SqlSearchOperators::GreaterThan,
            },
            MetaRelation::And,
        );
    let queries = q.0.meta_query.unwrap();
    assert_eq!(queries.get(&MetaRelation::And).unwrap().len(), 2);
}

#[test]
fn meta_query_clears_the_single_filter() {
    let q = ParamBuilder::new()
        .meta_key("key1")
        .meta_value_num(4)
        .meta_compare(SqlSearchOperators::Like)
        .meta_query(MetaQuery::new("k", "v", SqlSearchOperators::Equals), MetaRelation::Or);
    assert!(q.0.meta_key.is_none());
    assert!(q.0.meta_value.is_none());
    assert!(q.0.meta_value_num.is_none());
    assert!(q.0.meta_compare.is_none());
}

#[test]
fn meta_value_and_number_replace_each_other() {
    let q = ParamBuilder::new().meta_value_num(4).meta_value("four");
    assert_eq!(q.0.meta_value_num, None);
    assert_eq!(q.0.meta_value, Some(String::from("four")));
    let q = q.meta_value_num(5);
    assert_eq!(q.0.meta_value_num, Some(5));
    assert_eq!(q.0.meta_value, None);
}

#[test]
fn tax_query_without_relation_replaces_the_groups() {
    let q = ParamBuilder::new()
        .tax_query(TaxQuery::new("a", vec![1]), Some(TaxRelation::Or))
        .tax_query(TaxQuery::new("b", vec![2]), None);
    let map = q.0.tax_query.unwrap();
    assert_eq!(map.len(), 1);
    assert!(map.get(&TaxRelation::Or).is_none());
    assert_eq!(map.get(&TaxRelation::Single).unwrap()[0].taxonomy, "b");
}

#[test]
fn reserved_calls_change_nothing() {
    let q = ParamBuilder::new()
        .page_id()
        .pagename()
        .post_password()
        .ignore_sticky_posts()
        .post_mime_type();
    assert!(q.0.page_id.is_none());
    assert!(q.0.pagename.is_none());
    assert!(q.0.post_password.is_none());
    assert!(q.0.ignore_sticky_posts.is_none());
    assert!(q.0.post_mime_type.is_none());
}
