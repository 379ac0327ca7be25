//! What every builder of a description of posts offers.

use std::fmt::Display;
use vstd::prelude::*;
use vstd::string::to_string_from_display_ensures;

use crate::params::meta_query::{MetaQuery, MetaRelation};
use crate::params::groups::groups_with;
use crate::params::post_type::PostType;
use crate::params::{pushed, Params};
use crate::sql::SqlSearchOperators;
use crate::wp_post::post_status::PostStatus;

verus! {

/// Filters on a post's own columns.
#[allow(non_snake_case)]
pub trait PostQueryable<'a>: Sized {
    /// The description built so far.
    spec fn built(&self) -> Params<'a>;

    /// Selects the children of one page; 0 selects top-level entries.
    fn post_parent(self, id: u64) -> (r: Self)
        ensures
            self.built().is_well_formed() ==> r.built().is_well_formed(),
            r.built() == (Params { post_parent: Some(id), ..self.built() }),
    ;

    /// Admits one more parent id.
    fn post_parent__in(self, id: u64) -> (r: Self)
        ensures
            self.built().is_well_formed() ==> r.built().is_well_formed(),
            r.built().post_parent__in is Some,
            r.built().post_parent__in->0@ == pushed(self.built().post_parent__in, id),
            r.built() == (Params { post_parent__in: r.built().post_parent__in, ..self.built() }),
    ;

    /// Excludes one more parent id.
    fn post_parent__not_in(self, id: u64) -> (r: Self)
        ensures
            self.built().is_well_formed() ==> r.built().is_well_formed(),
            r.built().post_parent__not_in is Some,
            r.built().post_parent__not_in->0@ == pushed(self.built().post_parent__not_in, id),
            r.built() == (Params {
                post_parent__not_in: r.built().post_parent__not_in,
                ..self.built()
            }),
    ;

    /// Admits one more post id.
    fn post__in(self, id: u64) -> (r: Self)
        ensures
            self.built().is_well_formed() ==> r.built().is_well_formed(),
            r.built().post__in is Some,
            r.built().post__in->0@ == pushed(self.built().post__in, id),
            r.built() == (Params { post__in: r.built().post__in, ..self.built() }),
    ;

    /// Excludes one more post id.
    fn post__not_in(self, id: u64) -> (r: Self)
        ensures
            self.built().is_well_formed() ==> r.built().is_well_formed(),
            r.built().post__not_in is Some,
            r.built().post__not_in->0@ == pushed(self.built().post__not_in, id),
            r.built() == (Params { post__not_in: r.built().post__not_in, ..self.built() }),
    ;

    /// Admits one more post slug.
    fn post_name__in(self, s: &'a str) -> (r: Self)
        ensures
            self.built().is_well_formed() ==> r.built().is_well_formed(),
            r.built().post_name__in is Some,
            r.built().post_name__in->0@ == pushed(self.built().post_name__in, s),
            r.built() == (Params { post_name__in: r.built().post_name__in, ..self.built() }),
    ;

    /// Admits one more post type. Without any, only `post` is admitted.
    fn post_type(self, post_type: PostType) -> (r: Self)
        ensures
            self.built().is_well_formed() ==> r.built().is_well_formed(),
            r.built().post_type is Some,
            r.built().post_type->0@ == pushed(self.built().post_type, post_type),
            r.built() == (Params { post_type: r.built().post_type, ..self.built() }),
    ;

    /// Admits every post type, until `post_type` is called again.
    fn post_type_all(self) -> (r: Self)
        ensures
            self.built().is_well_formed() ==> r.built().is_well_formed(),
            r.built().post_type is Some,
            r.built().post_type->0@ == Seq::<PostType>::empty(),
            r.built() == (Params { post_type: r.built().post_type, ..self.built() }),
    ;

    fn post_status(self, status: PostStatus) -> (r: Self)
        ensures
            self.built().is_well_formed() ==> r.built().is_well_formed(),
            r.built() == (Params { post_status: Some(status), ..self.built() }),
    ;
}

/// Filters on custom fields: one key, value and comparison, or clauses
/// grouped by relation, never both.
pub trait MetaQueryable<'a>: Sized {
    /// The description built so far.
    spec fn built_meta(&self) -> Params<'a>;

    /// Sets the single custom-field key. Not to be called once grouped
    /// clauses are present.
    fn meta_key(self, key: &'a str) -> (r: Self)
        requires
            self.built_meta().meta_query is None,
        ensures
            self.built_meta().is_well_formed() ==> r.built_meta().is_well_formed(),
            r.built_meta() == (Params { meta_key: Some(key), ..self.built_meta() }),
    ;

    /// Sets the single custom-field value, kept as the text it displays as,
    /// and drops a numeric value. Not to be called once grouped clauses are
    /// present.
    fn meta_value<T: Display>(self, val: T) -> (r: Self)
        requires
            self.built_meta().meta_query is None,
        ensures
            self.built_meta().is_well_formed() ==> r.built_meta().is_well_formed(),
            r.built_meta().meta_value is Some,
            to_string_from_display_ensures::<T>(&val, r.built_meta().meta_value->0),
            r.built_meta() == (Params {
                meta_value: r.built_meta().meta_value,
                meta_value_num: None,
                ..self.built_meta()
            }),
    ;

    /// Sets the single custom-field value to a number and drops a text
    /// value. Not to be called once grouped clauses are present.
    fn meta_value_num(self, n: i64) -> (r: Self)
        requires
            self.built_meta().meta_query is None,
        ensures
            self.built_meta().is_well_formed() ==> r.built_meta().is_well_formed(),
            r.built_meta() == (Params {
                meta_value: None,
                meta_value_num: Some(n),
                ..self.built_meta()
            }),
    ;

    /// Sets how the single custom-field key and value are compared.
    fn meta_compare(self, compare: SqlSearchOperators) -> (r: Self)
        ensures
            self.built_meta().is_well_formed() ==> r.built_meta().is_well_formed(),
            r.built_meta() == (Params { meta_compare: Some(compare), ..self.built_meta() }),
    ;

    /// Files one more clause under `relation` and clears the single
    /// custom-field filter.
    fn meta_query(self, query: MetaQuery, relation: MetaRelation) -> (r: Self)
        ensures
            self.built_meta().is_well_formed() ==> r.built_meta().is_well_formed(),
            r.built_meta().meta_query is Some,
            r.built_meta().meta_query->0@ == groups_with(
                match self.built_meta().meta_query {
                    Some(m) => m@,
                    None => Seq::empty(),
                },
                relation,
                query,
            ),
            r.built_meta() == (Params {
                meta_compare: None,
                meta_key: None,
                meta_value: None,
                meta_value_num: None,
                meta_query: r.built_meta().meta_query,
                ..self.built_meta()
            }),
    ;
}

} // verus!
