use wp_query_rs::sql::SqlConditionOperator;
use wp_query_rs::{TaxField, TaxQuery, TaxRelation};

#[test]
fn tax_query_can_create() {
    let terms = vec![String::from("1")];
    let tax = TaxQuery::new("category", terms.clone());

    assert_eq!(tax.terms, terms);
    assert_eq!(tax.taxonomy, "category");
    assert_eq!(tax.operator, SqlConditionOperator::In);
    assert_eq!(tax.field, TaxField::TermId);
}

#[test]
fn can_add_term() {
    let tax = TaxQuery::new("category", vec![String::from("1")]).add_term("Hello");
    assert_eq!(tax.terms, vec![String::from("1"), String::from("Hello")]);
}

#[test]
fn can_change_field() {
    let tax = TaxQuery::new("category", vec![String::from("1")]).field(TaxField::Name);
    assert_eq!(tax.field, TaxField::Name);
}

#[test]
fn can_change_operator() {
    let tax = TaxQuery::new("category", vec![String::from("1")])
        .operator(SqlConditionOperator::NotIn);
    assert_eq!(tax.operator, SqlConditionOperator::NotIn);
}

#[test]
fn single_map_holds_one_clause_under_single() {
    let map = TaxQuery::new_single_tax_map(TaxQuery::new("genre", vec![7]));
    assert_eq!(TaxQuery::get_single_tax_key(), TaxRelation::Single);
    assert_eq!(map.len(), 1);
    assert_eq!(map.relation_at(0), TaxRelation::Single);
    assert_eq!(map.queries_at(0)[0].terms, vec![String::from("7")]);
    assert!(map.queries_at(0)[0].include_children);
}

#[test]
fn relations_and_fields_have_texts() {
    assert_eq!(TaxRelation::And.to_string(), "AND");
    assert_eq!(TaxRelation::Single.to_string(), "AND");
    assert_eq!(TaxRelation::Or.to_string(), "OR");
    assert_eq!(TaxField::Name.to_string(), "terms.name");
    assert_eq!(TaxField::Slug.to_string(), "terms.slug");
    assert_eq!(TaxField::TermId.to_string(), "terms.term_id");
    assert_eq!(TaxField::TermTaxonomyId.to_string(), "term_taxonomy.term_taxonomy_id");
}
