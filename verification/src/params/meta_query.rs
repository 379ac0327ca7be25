//! Filters on custom fields.

use std::fmt::Display;
use vstd::prelude::*;
use vstd::string::to_string_from_display_ensures;

use crate::params::groups::{groups_with, relations_distinct, Groups, Relation};
use crate::sql::SqlSearchOperators;

verus! {

/// One custom-field clause: a key, the value to compare with, and how.
#[derive(Debug)]
pub struct MetaQuery {
    pub key: String,
    pub value: String,
    pub compare: SqlSearchOperators,
}

impl MetaQuery {
    /// A clause on `key`. The value is kept as the text it displays as.
    pub fn new<T: Display>(key: &str, value: T, compare: SqlSearchOperators) -> (r: Self)
        ensures
            r.key@ == key@,
            to_string_from_display_ensures::<T>(&value, r.value),
            r.compare == compare,
    {
        MetaQuery { key: key.to_owned(), value: value.to_string(), compare }
    }
}

/// How the clauses of one group are joined.
#[derive(Debug, PartialEq, Eq, Hash, Clone, Copy, Structural)]
pub enum MetaRelation {
    Or,
    And,
}

impl MetaRelation {
    /// The keyword written between two clauses of a group.
    pub open spec fn text(self) -> Seq<char> {
        match self {
            Self::Or => "OR"@,
            Self::And => "AND"@,
        }
    }

    pub fn to_string(&self) -> (r: String)
        ensures
            r@ == self.text(),
    {
        match self {
            Self::Or => "OR".to_owned(),
            Self::And => "AND".to_owned(),
        }
    }
}

impl Relation for MetaRelation {
    fn same(&self, other: &Self) -> (r: bool) {
        *self == *other
    }
}

/// Custom-field clauses grouped by relation. A relation has at most one group;
/// groups stand in the order in which their first clause came, clauses in the
/// order in which they came.
#[derive(Debug)]
pub struct MetaQueryMap {
    groups: Groups<MetaRelation, MetaQuery>,
}

impl View for MetaQueryMap {
    type V = Seq<(MetaRelation, Seq<MetaQuery>)>;

    closed spec fn view(&self) -> Self::V {
        self.groups@
    }
}

impl MetaQueryMap {
    pub fn new() -> (r: Self)
        ensures
            r@ == Seq::<(MetaRelation, Seq<MetaQuery>)>::empty(),
            relations_distinct(r@),
    {
        MetaQueryMap { groups: Groups::new() }
    }

    /// The number of groups.
    pub fn len(&self) -> (n: usize)
        ensures
            n == self@.len(),
            relations_distinct(self@),
    {
        self.groups.len()
    }

    /// The relation of the group at `i`.
    pub fn relation_at(&self, i: usize) -> (r: MetaRelation)
        requires
            i < self@.len(),
        ensures
            r == self@[i as int].0,
    {
        self.groups.relation_at(i)
    }

    /// The clauses of the group at `i`.
    pub fn queries_at(&self, i: usize) -> (r: &Vec<MetaQuery>)
        requires
            i < self@.len(),
        ensures
            r@ == self@[i as int].1,
    {
        self.groups.queries_at(i)
    }

    /// The clauses under `relation`, if it has any.
    pub fn get(&self, relation: &MetaRelation) -> (r: Option<&Vec<MetaQuery>>)
        ensures
            match r {
                Some(queries) => exists|i: int|
                    0 <= i < self@.len() && (#[trigger] self@[i]).0 == *relation && self@[i].1
                        == queries@,
                None => forall|i: int| 0 <= i < self@.len() ==> (#[trigger] self@[i]).0 != *relation,
            },
    {
        self.groups.get(relation)
    }

    /// Files `query` under `relation`.
    pub fn add(self, relation: MetaRelation, query: MetaQuery) -> (r: Self)
        ensures
            r@ == groups_with(self@, relation, query),
            relations_distinct(r@),
    {
        MetaQueryMap { groups: self.groups.add(relation, query) }
    }

    /// The groups themselves.
    pub(crate) fn groups(&self) -> (r: &Groups<MetaRelation, MetaQuery>)
        ensures
            r@ == self@,
    {
        &self.groups
    }
}

} // verus!
