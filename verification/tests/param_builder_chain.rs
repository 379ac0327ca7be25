use wp_query_rs::sql::SqlConditionOperator;
use wp_query_rs::{
    DateQuery, DateQueryAfterBefore, MetaQuery, MetaQueryable, MetaRelation, ParamBuilder,
    PostQueryable, PostStatus, PostType, SqlOrder, SqlSearchOperators, TaxField, TaxQuery,
    TaxRelation, WpOrderBy,
};

#[test]
fn can_add_author() {
    let id = 1;
    let q = ParamBuilder::new().author(id);
    assert_eq!(id, q.params().author.unwrap());
}

#[test]
fn can_add_author_in() {
    let id = 1;
    let q = ParamBuilder::new().author__in(id);
    assert_eq!(&id, q.params().author__in.unwrap().first().unwrap());
}

#[test]
fn can_add_author_not_in() {
    let id = 1;
    let q = ParamBuilder::new().author__not_in(id);
    assert_eq!(id, *q.params().author__not_in.unwrap().first().unwrap());
}

#[test]
fn can_add_category() {
    let cat = 1;
    let q = ParamBuilder::new().cat(cat);
    assert_eq!(cat, q.params().term_and.unwrap()[0]);
}

#[test]
fn can_add_category_and() {
    let id = 1;
    let q = ParamBuilder::new().category__and(id);
    assert_eq!(id, *q.params().term_and.unwrap().first().unwrap());
}

#[test]
fn can_add_category_in() {
    let id = 1;
    let q = ParamBuilder::new().category__in(id);
    assert_eq!(id, *q.params().term_in.unwrap().first().unwrap());
}

#[test]
fn can_add_category_not_in() {
    let id = 1;
    let q = ParamBuilder::new().category__not_in(id);
    assert_eq!(id, *q.params().term_not_in.unwrap().first().unwrap());
}

#[test]
fn can_add_tag() {
    let tag = "Tag";
    let q = ParamBuilder::new().tag(tag);
    assert_eq!(tag, q.params().term_slug_and.unwrap()[0]);
}

#[test]
fn can_add_single_tax() {
    let terms = vec![String::from("1")];
    let tax = TaxQuery::new("custom_tax", terms.clone());
    let q = ParamBuilder::new().tax_query(tax, None);
    let stored = q.params().tax_query.unwrap();
    assert!(stored.get(&TaxRelation::Single).is_some());
    let stored = stored.get(&TaxRelation::Single).unwrap().first().unwrap();
    assert_eq!(stored.taxonomy, "custom_tax");
    assert_eq!(stored.terms, terms);
}

#[test]
fn can_add_multiple_tax() {
    let terms = vec![String::from("1")];
    let tax1 = TaxQuery::new("custom_tax", terms.clone());
    let tax2 = TaxQuery::new("category", terms.clone());
    let tax3 = TaxQuery::new("cust_2", terms.clone());
    let q = ParamBuilder::new()
        .tax_query(tax1, Some(TaxRelation::And))
        .tax_query(tax2, Some(TaxRelation::And))
        .tax_query(tax3, Some(TaxRelation::Or));

    let created = q.params().tax_query.unwrap();
    assert_eq!(created.len(), 2);
    assert_eq!(created.get(&TaxRelation::And).unwrap().len(), 2);
    assert_eq!(created.get(&TaxRelation::Or).unwrap().len(), 1);
}

#[test]
fn can_add_post_params() {
    let q = ParamBuilder::new()
        .p(1)
        .post_parent(2)
        .post_status(PostStatus::Publish);
    let q = q.params();
    assert_eq!(q.p.unwrap(), 1);
    assert_eq!(q.post_parent.unwrap(), 2);
    assert_eq!(q.post_status.unwrap(), PostStatus::Publish);
}

#[test]
fn can_add_post_parent_in() {
    let id = 1;
    let q = ParamBuilder::new().post_parent__in(id);
    assert_eq!(id, *q.params().post_parent__in.unwrap().first().unwrap());
}

#[test]
fn can_add_post_parent_not_in() {
    let id = 1;
    let q = ParamBuilder::new().post_parent__not_in(id);
    assert_eq!(id, *q.params().post_parent__not_in.unwrap().first().unwrap());
}

#[test]
fn can_add_post_in() {
    let id = 1;
    let q = ParamBuilder::new().post__in(id);
    assert_eq!(id, *q.params().post__in.unwrap().first().unwrap());
}

#[test]
fn can_add_post_not_in() {
    let id = 1;
    let q = ParamBuilder::new().post__not_in(id);
    assert_eq!(id, *q.params().post__not_in.unwrap().first().unwrap());
}

#[test]
fn can_add_post_name_in() {
    let q = ParamBuilder::new()
        .post_name__in("malcolm-x")
        .post_name__in("mlk");
    let r = q.params().post_name__in.unwrap();
    assert_eq!(r.first().unwrap(), &"malcolm-x");
    assert_eq!(r.len(), 2);
}

#[test]
fn can_add_post_type() {
    let q = ParamBuilder::new().post_type(PostType::Page);
    assert_eq!(q.params().post_type.unwrap().first().unwrap(), &PostType::Page);
}

#[test]
fn can_add_multiple_post_types() {
    let q = ParamBuilder::new()
        .post_type(PostType::Post)
        .post_type(PostType::Page)
        .p(1)
        .post_parent(2)
        .post_status(PostStatus::Publish);
    assert_eq!(q.params().post_type.unwrap().len(), 2);
}

#[test]
fn can_add_comment_params() {
    let q = ParamBuilder::new().comment_count(2);
    assert_eq!(q.params().comment_count.unwrap(), 2);
}

#[test]
fn can_add_pagination_params() {
    let q = ParamBuilder::new().page(3).posts_per_page(20);
    let q = q.params();
    assert_eq!(q.page.unwrap(), 2);
    assert_eq!(q.posts_per_page.unwrap(), 20);
}

#[test]
fn can_add_orderby_params() {
    let q = ParamBuilder::new()
        .orderby(WpOrderBy::Author)
        .order(SqlOrder::Asc);
    let q = q.params();
    assert_eq!(q.orderby.unwrap(), WpOrderBy::Author);
    assert_eq!(q.order.unwrap(), SqlOrder::Asc);
}

#[test]
fn can_add_date_params() {
    let q = ParamBuilder::new()
        .year(2023)
        .monthnum(12)
        .monthnum(1)
        .w(53)
        .day(31)
        .hour(23)
        .minute(60)
        .second(60);
    let q = q.params();
    assert_eq!(q.year.unwrap(), 2023);
    assert_eq!(q.monthnum.unwrap(), 1);
    assert_eq!(q.w.unwrap(), 53);
    assert_eq!(q.day.unwrap(), 31);
    assert_eq!(q.hour.unwrap(), 23);
    assert_eq!(q.minute.unwrap(), 60);
    assert_eq!(q.second.unwrap(), 60);
}

#[test]
fn can_add_date_queries() {
    let dq1 = DateQuery::new().after(DateQueryAfterBefore::new(2022, 2, 2));
    let dq2 = DateQuery::new();
    let q = ParamBuilder::new().date_query(dq1).date_query(dq2);
    let dq = q.params().date_query.unwrap();
    assert_eq!(dq.len(), 2);
    assert_eq!(dq.first().unwrap().after.as_ref().unwrap().day, 2);
}

#[test]
fn m_clears_year_and_monthnum() {
    let q = ParamBuilder::new().year(2000).monthnum(7).m(202308);
    let q = q.params();
    assert!(q.year.is_none());
    assert!(q.monthnum.is_none());
    assert_eq!(q.m.unwrap(), 202308);
}

#[test]
fn can_set_single_meta() {
    let q = ParamBuilder::new()
        .meta_key("key1")
        .meta_value("a")
        .meta_compare(SqlSearchOperators::Like);
    let q = q.params();
    assert_eq!(q.meta_key.unwrap(), "key1");
    assert_eq!(q.meta_value.unwrap(), "a");
    assert_eq!(q.meta_compare.unwrap(), SqlSearchOperators::Like);
}

#[test]
fn can_set_multiple_meta() {
    let q = ParamBuilder::new()
        .meta_key("key1")
        .meta_query(
            MetaQuery {
                key: String::from("key1"),
                value: String::from("1"),
                compare: SqlSearchOperators::Equals,
            },
            MetaRelation::And,
        )
        .meta_query(
            MetaQuery {
                key: String::from("key2"),
                value: String::from("2"),
                compare: SqlSearchOperators::GreaterThan,
            },
            MetaRelation::And,
        );
    let queries = q.params().meta_query.unwrap();
    assert_eq!(queries.get(&MetaRelation::And).unwrap().len(), 2);
}

#[test]
fn can_create() {
    let tax_name = String::from("category");
    let terms = vec![String::from("1")];
    let tax = TaxQuery::new(&tax_name, terms.clone());
    assert_eq!(tax.terms, terms);
    assert_eq!(tax.taxonomy, tax_name);
    assert_eq!(tax.operator, SqlConditionOperator::In);
    assert_eq!(tax.field, TaxField::TermId);
}
