//! Filters on the terms of a taxonomy.

use std::fmt::Display;
use vstd::prelude::*;
use vstd::string::to_string_from_display_ensures;

use crate::params::groups::{groups_with, relations_distinct, Groups, Relation};
use crate::sql::SqlConditionOperator;

verus! {

/// How the clauses of one group are joined. `Single` tags the group of a
/// clause given without a relation.
#[derive(Debug, PartialEq, Eq, Hash, Clone, Copy, Structural)]
pub enum TaxRelation {
    And,
    Or,
    Single,
}

impl TaxRelation {
    /// The keyword written between two clauses of a group.
    pub open spec fn text(self) -> Seq<char> {
        match self {
            Self::And | Self::Single => "AND"@,
            Self::Or => "OR"@,
        }
    }

    pub fn to_string(&self) -> (r: String)
        ensures
            r@ == self.text(),
    {
        match self {
            Self::And | Self::Single => "AND".to_owned(),
            Self::Or => "OR".to_owned(),
        }
    }
}

/// The column by which a clause selects its terms.
#[derive(Debug, PartialEq, Eq, Clone, Copy, Structural)]
pub enum TaxField {
    TermId,
    Name,
    Slug,
    TermTaxonomyId,
}

impl TaxField {
    /// The column, table included, without the `wp_` prefix of the table.
    pub open spec fn text(self) -> Seq<char> {
        match self {
            Self::Name => "terms.name"@,
            Self::Slug => "terms.slug"@,
            Self::TermId => "terms.term_id"@,
            Self::TermTaxonomyId => "term_taxonomy.term_taxonomy_id"@,
        }
    }

    pub fn to_string(&self) -> (r: String)
        ensures
            r@ == self.text(),
    {
        match self {
            Self::Name => "terms.name".to_owned(),
            Self::Slug => "terms.slug".to_owned(),
            Self::TermId => "terms.term_id".to_owned(),
            Self::TermTaxonomyId => "term_taxonomy.term_taxonomy_id".to_owned(),
        }
    }
}

/// One taxonomy clause: the terms to look for and how.
#[derive(Debug)]
pub struct TaxQuery<'a> {
    pub taxonomy: &'a str,
    /// The column the terms are matched against.
    pub field: TaxField,
    pub terms: Vec<String>,
    pub include_children: bool,
    pub operator: SqlConditionOperator,
}

impl<'a> TaxQuery<'a> {
    /// A clause on `taxonomy` that matches the given terms by id with `IN`.
    /// Each term is kept as the text it displays as.
    pub fn new<T: Display>(taxonomy: &'a str, terms: Vec<T>) -> (r: Self)
        ensures
            r.taxonomy == taxonomy,
            r.field == TaxField::TermId,
            r.include_children,
            r.operator == SqlConditionOperator::In,
            r.terms@.len() == terms@.len(),
            forall|i: int|
                0 <= i < terms@.len() ==> to_string_from_display_ensures::<T>(
                    &terms@[i],
                    #[trigger] r.terms@[i],
                ),
    {
        let mut texts: Vec<String> = Vec::new();
        let mut i: usize = 0;
        while i < terms.len()
            invariant
                i <= terms@.len(),
                texts@.len() == i,
                forall|j: int|
                    0 <= j < i ==> to_string_from_display_ensures::<T>(
                        &terms@[j],
                        #[trigger] texts@[j],
                    ),
            decreases terms@.len() - i,
        {
            texts.push(terms[i].to_string());
            i = i + 1;
        }
        TaxQuery {
            taxonomy,
            field: TaxField::TermId,
            terms: texts,
            include_children: true,
            operator: SqlConditionOperator::In,
        }
    }

    /// The map that holds this one clause under `Single`.
    pub fn new_single_tax_map(r: Self) -> (m: TaxQueryMap<'a>)
        ensures
            m@ == seq![(TaxRelation::Single, seq![r])],
    {
        let k = Self::get_single_tax_key();
        TaxQueryMap::new().add(k, r)
    }

    pub fn get_single_tax_key() -> (r: TaxRelation)
        ensures
            r == TaxRelation::Single,
    {
        TaxRelation::Single
    }

    /// Adds one more term, kept as the text it displays as.
    pub fn add_term<T: Display>(self, term: T) -> (r: Self)
        ensures
            r.terms@.len() == self.terms@.len() + 1,
            r.terms@.drop_last() == self.terms@,
            to_string_from_display_ensures::<T>(&term, r.terms@.last()),
            r.taxonomy == self.taxonomy,
            r.field == self.field,
            r.include_children == self.include_children,
            r.operator == self.operator,
    {
        let mut q = self;
        q.terms.push(term.to_string());
        assert(q.terms@.drop_last() =~= self.terms@);
        q
    }

    pub fn field(self, field: TaxField) -> (r: Self)
        ensures
            r == (TaxQuery { field, ..self }),
    {
        let mut q = self;
        q.field = field;
        q
    }

    pub fn operator(self, operator: SqlConditionOperator) -> (r: Self)
        ensures
            r == (TaxQuery { operator, ..self }),
    {
        let mut q = self;
        q.operator = operator;
        q
    }
}

impl Relation for TaxRelation {
    fn same(&self, other: &Self) -> (r: bool) {
        *self == *other
    }
}

/// Taxonomy clauses grouped by relation. A relation has at most one group;
/// groups stand in the order in which their first clause came, clauses in the
/// order in which they came.
#[derive(Debug)]
pub struct TaxQueryMap<'a> {
    groups: Groups<TaxRelation, TaxQuery<'a>>,
}

impl<'a> View for TaxQueryMap<'a> {
    type V = Seq<(TaxRelation, Seq<TaxQuery<'a>>)>;

    closed spec fn view(&self) -> Self::V {
        self.groups@
    }
}

impl<'a> TaxQueryMap<'a> {
    pub fn new() -> (r: Self)
        ensures
            r@ == Seq::<(TaxRelation, Seq<TaxQuery<'a>>)>::empty(),
            relations_distinct(r@),
    {
        TaxQueryMap { groups: Groups::new() }
    }

    /// The number of groups.
    pub fn len(&self) -> (n: usize)
        ensures
            n == self@.len(),
            relations_distinct(self@),
    {
        self.groups.len()
    }

    /// The relation of the group at `i`.
    pub fn relation_at(&self, i: usize) -> (r: TaxRelation)
        requires
            i < self@.len(),
        ensures
            r == self@[i as int].0,
    {
        self.groups.relation_at(i)
    }

    /// The clauses of the group at `i`.
    pub fn queries_at(&self, i: usize) -> (r: &Vec<TaxQuery<'a>>)
        requires
            i < self@.len(),
        ensures
            r@ == self@[i as int].1,
    {
        self.groups.queries_at(i)
    }

    /// The clauses under `relation`, if it has any.
    pub fn get(&self, relation: &TaxRelation) -> (r: Option<&Vec<TaxQuery<'a>>>)
        ensures
            match r {
                Some(queries) => exists|i: int|
                    0 <= i < self@.len() && (#[trigger] self@[i]).0 == *relation && self@[i].1
                        == queries@,
                None => forall|i: int| 0 <= i < self@.len() ==> (#[trigger] self@[i]).0 != *relation,
            },
    {
        self.groups.get(relation)
    }

    /// Files `query` under `relation`.
    pub fn add(self, relation: TaxRelation, query: TaxQuery<'a>) -> (r: Self)
        ensures
            r@ == groups_with(self@, relation, query),
            relations_distinct(r@),
    {
        TaxQueryMap { groups: self.groups.add(relation, query) }
    }

    /// The groups themselves.
    pub(crate) fn groups(&self) -> (r: &Groups<TaxRelation, TaxQuery<'a>>)
        ensures
            r@ == self@,
    {
        &self.groups
    }
}

} // verus!
