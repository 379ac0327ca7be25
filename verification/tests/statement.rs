use wp_query_rs::sql::SqlConditionOperator;
use wp_query_rs::{
    DateColumn, DateQuery, DateQueryAfterBefore, MetaQuery, MetaQueryable, MetaRelation,
    ParamBuilder, Params, PostQueryable, PostStatus, PostType, QueryAndValues, QueryBuilder,
    SqlOrder, SqlSearchOperators, SqlValue, TaxField, TaxQuery, TaxRelation, WpOrderBy,
};

fn compile(params: Params) -> (String, Vec<SqlValue>) {
    let QueryAndValues(text, values) = QueryBuilder::new(params).query();
    (text, values)
}

fn text_of(s: &str) -> SqlValue {
    SqlValue::Bytes(s.as_bytes().to_vec())
}

fn placeholders(text: &str) -> usize {
    text.matches('?').count()
}

const SELECT: &str = "SELECT DISTINCT(wp_posts.ID),post_author,comment_count,post_parent,menu_order,
            post_date,post_date_gmt,post_modified,post_modified_gmt,
            post_status,post_content,post_title,post_excerpt,comment_status,ping_status,
            post_password,post_name,to_ping,pinged,post_content_filtered,guid,
            post_type,post_mime_type
            FROM wp_posts";

#[test]
fn empty_description_selects_published_posts() {
    let (text, values) = compile(Params::new());
    assert_eq!(
        text,
        format!(
            "{} WHERE 1 = 1 AND post_status = ? AND wp_posts.post_type = 'post' LIMIT ?;",
            SELECT
        )
    );
    assert_eq!(values, vec![text_of("publish"), SqlValue::UInt(10)]);
}

#[test]
fn status_any_emits_no_status_filter() {
    let (text, values) = compile(ParamBuilder::new().post_status(PostStatus::Any).params());
    assert!(!text.contains("post_status ="));
    assert_eq!(values, vec![SqlValue::UInt(10)]);
}

#[test]
fn post_id_and_default_status() {
    let (text, values) = compile(ParamBuilder::new().p(7).params());
    assert!(text.contains("wp_posts.ID = ?"));
    assert!(text.contains("post_status = ?"));
    assert_eq!(values, vec![text_of("publish"), SqlValue::UInt(7), SqlValue::UInt(10)]);
    assert_eq!(placeholders(&text), values.len());
}

#[test]
fn two_post_types_are_bound_in_order() {
    let params = ParamBuilder::new()
        .post_type(PostType::Page)
        .post_type(PostType::from("book"))
        .params();
    let (text, values) = compile(params);
    assert!(text.contains(" AND wp_posts.post_type IN (?,?)"));
    assert_eq!(values, vec![text_of("publish"), text_of("page"), text_of("book"), SqlValue::UInt(10)]);
}

#[test]
fn meta_groups_bind_value_then_key() {
    let params = ParamBuilder::new()
        .meta_query(MetaQuery::new("color", "red", SqlSearchOperators::Equals), MetaRelation::And)
        .meta_query(MetaQuery::new("size", 3, SqlSearchOperators::Exists), MetaRelation::And)
        .params();
    let (text, values) = compile(params);
    assert!(text.ends_with(
        " AND (wp_postmeta.meta_value = ? AND wp_postmeta.meta_key = ?) AND EXISTS (SELECT * FROM wp_postmeta WHERE meta_key = ? AND wp_postmeta.post_id = wp_posts.ID) LIMIT ?;"
    ));
    assert_eq!(
        values,
        vec![
            text_of("publish"),
            text_of("red"),
            text_of("color"),
            text_of("size"),
            SqlValue::UInt(10)
        ]
    );
}

#[test]
fn one_group_of_three_taxonomy_clauses() {
    let params = ParamBuilder::new()
        .tax_query(TaxQuery::new("category", vec![1]), Some(TaxRelation::And))
        .tax_query(TaxQuery::new("post_tag", vec![2]), Some(TaxRelation::And))
        .tax_query(TaxQuery::new("genre", vec![3]), Some(TaxRelation::And))
        .params();
    let (text, values) = compile(params);
    assert!(text.contains(
        " AND wp_terms.term_id IN (?) AND wp_terms.term_id IN (?) AND wp_terms.term_id IN (?)"
    ));
    assert_eq!(
        values,
        vec![text_of("publish"), text_of("1"), text_of("2"), text_of("3"), SqlValue::UInt(10)]
    );
}

#[test]
fn pagination_arithmetic() {
    let (text, values) = compile(ParamBuilder::new().page(1).posts_per_page(10).params());
    assert!(text.ends_with(" LIMIT ? OFFSET ?;"));
    assert_eq!(values[values.len() - 2..], [SqlValue::UInt(10), SqlValue::UInt(0)]);
    let (_, values) = compile(ParamBuilder::new().page(3).posts_per_page(20).params());
    assert_eq!(values[values.len() - 2..], [SqlValue::UInt(20), SqlValue::UInt(40)]);
}

#[test]
fn joins_follow_the_filters() {
    let (text, _) = compile(Params::new());
    assert!(!text.contains("JOIN"));
    let (text, values) = compile(ParamBuilder::new().meta_key("color").params());
    assert!(text.contains(" INNER JOIN wp_postmeta ON wp_postmeta.post_id = wp_posts.ID"));
    assert_eq!(text.matches("JOIN").count(), 1);
    assert!(text.contains(" AND wp_postmeta.meta_key = ?"));
    assert_eq!(values, vec![text_of("publish"), text_of("color"), SqlValue::UInt(10)]);
    let (text, _) = compile(ParamBuilder::new().author_name("ann").params());
    assert_eq!(text.matches("JOIN").count(), 1);
    assert!(text.contains(" INNER JOIN wp_users ON wp_users.ID = wp_posts.post_author"));
    let (text, _) = compile(ParamBuilder::new().cat(3).params());
    assert_eq!(text.matches("JOIN").count(), 3);
    assert!(text.contains("INNER JOIN wp_term_relationships"));
    let (text, _) = compile(
        ParamBuilder::new().cat(3).author_name("ann").meta_value_num(4).params(),
    );
    assert_eq!(text.matches("JOIN").count(), 5);
    let meta = text.find("wp_postmeta ON").unwrap();
    let term = text.find("wp_term_relationships").unwrap();
    let user = text.find("wp_users ON").unwrap();
    assert!(meta < term && term < user);
}

#[test]
fn every_filter_in_its_place() {
    let params = ParamBuilder::new()
        .author(1)
        .author_name("ann")
        .author__in(2)
        .author__in(3)
        .author__not_in(4)
        .post_status(PostStatus::Draft)
        .category_name("news")
        .tag("rust")
        .tag_slug__in("a")
        .tag_slug__in("b")
        .category__in(5)
        .tag__not_in(6)
        .tax_query(
            TaxQuery::new("genre", vec!["x", "y"]).field(TaxField::Slug),
            Some(TaxRelation::Or),
        )
        .tax_query(
            TaxQuery::new("genre", vec![9]).operator(SqlConditionOperator::NotIn),
            Some(TaxRelation::Or),
        )
        .s("verus")
        .p(7)
        .name("hello")
        .post_type(PostType::Page)
        .post_parent(8)
        .post_parent__in(9)
        .post_parent__not_in(10)
        .post__in(11)
        .post__not_in(12)
        .post_name__in("one")
        .year(2024)
        .monthnum(2)
        .day(29)
        .hour(13)
        .date_query(
            DateQuery::new()
                .year(2020)
                .month(1)
                .day(2)
                .column(DateColumn::ModifiedDate)
                .after(DateQueryAfterBefore::new(2019, 1, 1))
                .before(DateQueryAfterBefore::new(2021, 1, 1))
                .inclusive(true)
                .relation(SqlConditionOperator::Or),
        )
        .date_query(DateQuery::new().after(DateQueryAfterBefore::new(2018, 5, 6)))
        .meta_key("k")
        .meta_value_num(-3)
        .meta_compare(SqlSearchOperators::GreaterThan)
        .orderby(WpOrderBy::Title)
        .order(SqlOrder::Asc)
        .posts_per_page(5)
        .page(4)
        .params();
    let (text, values) = compile(params);
    let expected = [
        SELECT,
        " INNER JOIN wp_postmeta ON wp_postmeta.post_id = wp_posts.ID",
        " INNER JOIN wp_term_relationships
            ON wp_posts.ID = wp_term_relationships.object_id
            INNER JOIN wp_term_taxonomy ON wp_term_taxonomy.term_taxonomy_id = wp_term_relationships.term_taxonomy_id
            INNER JOIN wp_terms ON wp_terms.term_id = wp_term_taxonomy.term_id",
        " INNER JOIN wp_users ON wp_users.ID = wp_posts.post_author",
        " WHERE 1 = 1",
        " AND post_author = ?",
        " AND wp_users.user_nicename = ?",
        " AND post_author IN (?,?)",
        " AND post_author NOT IN (?)",
        " AND post_status = ?",
        " AND wp_terms.slug = ?",
        " AND wp_terms.slug = ?",
        " AND wp_terms.slug IN (?,?)",
        " AND wp_terms.term_id IN (?)",
        " AND wp_terms.term_id NOT IN (?)",
        " AND wp_terms.slug IN (?,?) OR wp_terms.term_id NOT IN (?)",
        " AND wp_posts.post_content LIKE CONCAT('%',?,'%') OR wp_posts.post_title LIKE CONCAT('%',?,'%')",
        " AND wp_posts.ID = ?",
        " AND wp_posts.post_name = ?",
        " AND wp_posts.post_type IN (?)",
        " AND wp_posts.post_parent = ?",
        " AND wp_posts.post_parent IN (?)",
        " AND wp_posts.post_parent NOT IN (?)",
        " AND wp_posts.ID IN (?)",
        " AND wp_posts.ID NOT IN (?)",
        " AND wp_posts.post_name IN (?)",
        " AND wp_posts.post_date = ?",
        " AND wp_posts.post_modified = ?",
        " OR wp_posts.post_modified >= ?",
        " OR wp_posts.post_modified <= ?",
        " AND wp_posts.post_date > ?",
        " AND wp_postmeta.meta_key > ?",
        " AND wp_postmeta.meta_value > ?",
        " ORDER BY post_title ASC",
        " LIMIT ? OFFSET ?;",
    ]
    .concat();
    assert_eq!(text, expected);
    assert_eq!(
        values,
        vec![
            SqlValue::UInt(1),
            text_of("ann"),
            SqlValue::UInt(2),
            SqlValue::UInt(3),
            SqlValue::UInt(4),
            text_of("draft"),
            text_of("news"),
            text_of("rust"),
            text_of("a"),
            text_of("b"),
            SqlValue::UInt(5),
            SqlValue::UInt(6),
            text_of("x"),
            text_of("y"),
            text_of("9"),
            text_of("verus"),
            text_of("verus"),
            SqlValue::UInt(7),
            text_of("hello"),
            text_of("page"),
            SqlValue::UInt(8),
            SqlValue::UInt(9),
            SqlValue::UInt(10),
            SqlValue::UInt(11),
            SqlValue::UInt(12),
            text_of("one"),
            SqlValue::Date(2024, 2, 29, 13, 0, 0, 0),
            SqlValue::Date(2020, 1, 2, 0, 0, 0, 0),
            SqlValue::Date(2019, 1, 1, 0, 0, 0, 0),
            SqlValue::Date(2021, 1, 1, 0, 0, 0, 0),
            SqlValue::Date(2018, 5, 6, 0, 0, 0, 0),
            text_of("k"),
            SqlValue::Int(-3),
            SqlValue::UInt(5),
            SqlValue::UInt(15),
        ]
    );
    assert_eq!(placeholders(&text), values.len());
}

#[test]
fn groups_are_not_bracketed() {
    let params = ParamBuilder::new()
        .meta_query(MetaQuery::new("a", 1, SqlSearchOperators::Equals), MetaRelation::Or)
        .meta_query(MetaQuery::new("b", 2, SqlSearchOperators::Like), MetaRelation::And)
        .meta_query(MetaQuery::new("c", 3, SqlSearchOperators::NotExists), MetaRelation::Or)
        .params();
    let (text, values) = compile(params);
    let tail = [
        " AND (wp_postmeta.meta_value = ? AND wp_postmeta.meta_key = ?)",
        " OR NOT EXISTS (SELECT * FROM wp_postmeta WHERE meta_key = ? AND wp_postmeta.post_id = wp_posts.ID)",
        " AND (wp_postmeta.meta_value LIKE ? AND wp_postmeta.meta_key LIKE ?)",
        " LIMIT ?;",
    ]
    .concat();
    assert!(text.ends_with(&tail));
    assert_eq!(
        values,
        vec![
            text_of("publish"),
            text_of("1"),
            text_of("a"),
            text_of("c"),
            text_of("2"),
            text_of("b"),
            SqlValue::UInt(10)
        ]
    );
    assert_eq!(placeholders(&text), values.len());
}

#[test]
fn single_meta_value_uses_the_comparison() {
    let (text, values) = compile(
        ParamBuilder::new()
            .meta_key("k")
            .meta_value("v")
            .meta_compare(SqlSearchOperators::NotLike)
            .params(),
    );
    assert!(text.contains(" AND wp_postmeta.meta_key NOT LIKE ? AND wp_postmeta.meta_value NOT LIKE ?"));
    assert_eq!(values, vec![text_of("publish"), text_of("k"), text_of("v"), SqlValue::UInt(10)]);
}

#[test]
fn order_is_descending_unless_set() {
    let (text, _) = compile(ParamBuilder::new().orderby(WpOrderBy::Date).params());
    assert!(text.ends_with(" ORDER BY post_date DESC LIMIT ?;"));
    let (text, _) = compile(ParamBuilder::new().order(SqlOrder::Asc).params());
    assert!(!text.contains("ORDER BY"));
}

#[test]
fn omitted_page_has_no_offset() {
    let (text, values) = compile(ParamBuilder::new().posts_per_page(25).params());
    assert!(text.ends_with(" LIMIT ?;"));
    assert!(!text.contains("OFFSET"));
    assert_eq!(values.last(), Some(&SqlValue::UInt(25)));
}

#[test]
fn partial_date_is_no_exact_date() {
    let (text, _) = compile(ParamBuilder::new().year(2024).monthnum(2).params());
    assert!(!text.contains("post_date ="));
    let (text, values) = compile(ParamBuilder::new().year(2024).monthnum(2).day(1).params());
    assert!(text.contains(" AND wp_posts.post_date = ?"));
    assert_eq!(values[1], SqlValue::Date(2024, 2, 1, 0, 0, 0, 0));
}

#[test]
fn group_of_three_has_two_inner_relations() {
    let params = ParamBuilder::new()
        .post_status(PostStatus::Any)
        .post_type_all()
        .tax_query(TaxQuery::new("a", vec![1]), Some(TaxRelation::And))
        .tax_query(TaxQuery::new("b", vec![2]), Some(TaxRelation::And))
        .tax_query(TaxQuery::new("c", vec![3]), Some(TaxRelation::And))
        .params();
    let (text, values) = compile(params);
    let tail = text.split(" WHERE 1 = 1").nth(1).unwrap();
    assert_eq!(tail.matches(" AND").count(), 3);
    assert_eq!(values, vec![text_of("1"), text_of("2"), text_of("3"), SqlValue::UInt(10)]);
}

#[test]
fn page_that_cannot_be_addressed_gives_no_statement() {
    let far = ParamBuilder::new().page(u64::MAX).posts_per_page(3).params();
    assert!(!wp_query_rs::query_builder::page_fits(&far));
    assert!(QueryBuilder::new(far).checked_query().is_none());
    let near = ParamBuilder::new().page(3).posts_per_page(3).params();
    assert!(wp_query_rs::query_builder::page_fits(&near));
    let QueryAndValues(text, values) = QueryBuilder::new(near).checked_query().unwrap();
    assert!(text.ends_with(" LIMIT ? OFFSET ?;"));
    assert_eq!(values[values.len() - 2..], [SqlValue::UInt(3), SqlValue::UInt(6)]);
    assert!(wp_query_rs::query_builder::page_fits(&Params::new()));
}

#[test]
fn status_any_writes_nothing() {
    let mut text = String::from("x");
    let mut values = vec![SqlValue::UInt(1)];
    wp_query_rs::query_builder::push_post_status(&mut text, &mut values, &PostStatus::Any);
    assert_eq!(text, "x");
    assert_eq!(values, vec![SqlValue::UInt(1)]);
    wp_query_rs::query_builder::push_post_status(&mut text, &mut values, &PostStatus::AutoDraft);
    assert_eq!(text, "x AND post_status = ?");
    assert_eq!(values, vec![SqlValue::UInt(1), text_of("auto-draft")]);
}

#[test]
fn type_list_absent_empty_and_given() {
    let mut text = String::from("x");
    let mut values = vec![SqlValue::UInt(1)];
    wp_query_rs::query_builder::push_post_type(&mut text, &mut values, &None);
    assert_eq!(text, "x AND wp_posts.post_type = 'post'");
    assert_eq!(values, vec![SqlValue::UInt(1)]);
    wp_query_rs::query_builder::push_post_type(&mut text, &mut values, &Some(vec![]));
    assert_eq!(text, "x AND wp_posts.post_type = 'post'");
    assert_eq!(values, vec![SqlValue::UInt(1)]);
    let types = Some(vec![PostType::Page, PostType::from("book"), PostType::Post]);
    let mut text = String::new();
    wp_query_rs::query_builder::push_post_type(&mut text, &mut values, &types);
    assert_eq!(text, " AND wp_posts.post_type IN (?,?,?)");
    assert_eq!(
        values,
        vec![SqlValue::UInt(1), text_of("page"), text_of("book"), text_of("post")]
    );
}
