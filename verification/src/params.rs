//! The description of the posts wanted.

use vstd::prelude::*;

use crate::sql::{SqlCompareOperator, SqlOrder, SqlSearchOperators};
use crate::wp_post::post_status::PostStatus;

use self::date_query::DateQuery;
use self::meta_query::MetaQueryMap;
use self::orderby::WpOrderBy;
use self::post_type::PostType;
use self::tax_query::TaxQueryMap;

pub mod date_query;
pub mod groups;
pub mod meta_query;
pub mod orderby;
pub mod param_builder;
pub mod post_type;
pub mod tax_query;
pub mod traits;

verus! {

/// Which posts to select. Every filter is optional; an absent one restricts
/// nothing, except that an absent status means published posts only and an
/// absent type list means posts of type `post`.
#[allow(non_snake_case)]
#[derive(Debug)]
pub struct Params<'a> {
    pub author: Option<u64>,
    /// The author's `user_nicename`.
    pub author_name: Option<&'a str>,
    pub author__in: Option<Vec<u64>>,
    pub author__not_in: Option<Vec<u64>>,
    /// Ids of the categories and tags a post must all have.
    pub term_and: Option<Vec<u64>>,
    pub term_in: Option<Vec<u64>>,
    pub term_not_in: Option<Vec<u64>>,
    pub term_slug_and: Option<Vec<&'a str>>,
    pub term_slug_in: Option<Vec<&'a str>>,
    /// Taxonomy clauses, grouped by the relation that joins them.
    pub tax_query: Option<TaxQueryMap<'a>>,
    /// Search keyword.
    pub s: Option<&'a str>,
    /// Post id.
    pub p: Option<u64>,
    /// Post slug.
    pub name: Option<&'a str>,
    pub page_id: Option<u64>,
    pub pagename: Option<&'a str>,
    pub post_parent: Option<u64>,
    pub post_parent__in: Option<Vec<u64>>,
    pub post_parent__not_in: Option<Vec<u64>>,
    pub post__in: Option<Vec<u64>>,
    pub post__not_in: Option<Vec<u64>>,
    pub post_name__in: Option<Vec<&'a str>>,
    pub post_password: Option<&'a str>,
    /// The types wanted. An empty list admits every type.
    pub post_type: Option<Vec<PostType>>,
    pub post_status: Option<PostStatus>,
    pub comment_count: Option<u64>,
    /// Page size; 10 when absent.
    pub posts_per_page: Option<u64>,
    /// Page index, counted from 0.
    pub page: Option<u64>,
    pub ignore_sticky_posts: Option<bool>,
    pub order: Option<SqlOrder>,
    pub orderby: Option<WpOrderBy>,
    pub year: Option<u16>,
    pub monthnum: Option<u8>,
    /// Week of the year, from 0 to 53.
    pub w: Option<u8>,
    pub day: Option<u8>,
    pub hour: Option<u8>,
    pub minute: Option<u8>,
    pub second: Option<u8>,
    /// Year and month in one number, such as 201307.
    pub m: Option<u64>,
    pub date_query: Option<Vec<DateQuery>>,
    pub meta_key: Option<&'a str>,
    pub meta_value: Option<String>,
    pub meta_value_num: Option<i64>,
    pub meta_compare: Option<SqlSearchOperators>,
    /// Custom-field clauses, grouped by the relation that joins them.
    pub meta_query: Option<MetaQueryMap>,
    pub post_mime_type: Option<&'a str>,
}

impl<'a> Params<'a> {
    /// The description without any filter.
    pub open spec fn blank() -> Params<'a> {
        Params {
            author: None,
            author_name: None,
            author__in: None,
            author__not_in: None,
            term_and: None,
            term_in: None,
            term_not_in: None,
            term_slug_and: None,
            term_slug_in: None,
            tax_query: None,
            s: None,
            p: None,
            name: None,
            page_id: None,
            pagename: None,
            post_parent: None,
            post_parent__in: None,
            post_parent__not_in: None,
            post__in: None,
            post__not_in: None,
            post_name__in: None,
            post_password: None,
            post_type: None,
            post_status: None,
            comment_count: None,
            posts_per_page: None,
            page: None,
            ignore_sticky_posts: None,
            order: None,
            orderby: None,
            year: None,
            monthnum: None,
            w: None,
            day: None,
            hour: None,
            minute: None,
            second: None,
            m: None,
            date_query: None,
            meta_key: None,
            meta_value: None,
            meta_value_num: None,
            meta_compare: None,
            meta_query: None,
            post_mime_type: None,
        }
    }

    /// Whether the single custom-field filter and the grouped clauses keep
    /// out of each other's way: with grouped clauses present there is no
    /// single key or value, and a single value is text or a number, not both.
    pub open spec fn meta_is_exclusive(self) -> bool {
        &&& self.meta_query is Some ==> self.meta_key is None && self.meta_value is None
            && self.meta_value_num is None
        &&& !(self.meta_value is Some && self.meta_value_num is Some)
    }

    /// Whether the date parts are all in range.
    pub open spec fn dates_in_range(self) -> bool {
        &&& self.year is Some ==> self.year->0 <= 9999
        &&& self.monthnum is Some ==> 1 <= self.monthnum->0 <= 12
        &&& self.w is Some ==> self.w->0 <= 53
        &&& self.day is Some ==> 1 <= self.day->0 <= 31
        &&& self.hour is Some ==> self.hour->0 <= 23
        &&& self.minute is Some ==> self.minute->0 <= 60
        &&& self.second is Some ==> self.second->0 <= 60
        &&& self.m is Some ==> self.m->0 <= 999999
    }

    /// Whether the description is one a builder makes: the custom-field
    /// filters keep out of each other's way and the date parts are in range.
    pub open spec fn is_well_formed(self) -> bool {
        self.meta_is_exclusive() && self.dates_in_range()
    }

    pub fn new() -> (r: Self)
        ensures
            r == Self::blank(),
            r.is_well_formed(),
    {
        Self {
            author: None,
            author_name: None,
            author__in: None,
            author__not_in: None,
            term_and: None,
            term_in: None,
            term_not_in: None,
            term_slug_and: None,
            term_slug_in: None,
            tax_query: None,
            s: None,
            p: None,
            name: None,
            page_id: None,
            pagename: None,
            post_parent: None,
            post_parent__in: None,
            post_parent__not_in: None,
            post__in: None,
            post__not_in: None,
            post_name__in: None,
            post_password: None,
            post_type: None,
            post_status: None,
            comment_count: None,
            posts_per_page: None,
            page: None,
            ignore_sticky_posts: None,
            order: None,
            orderby: None,
            year: None,
            monthnum: None,
            w: None,
            day: None,
            hour: None,
            minute: None,
            second: None,
            m: None,
            date_query: None,
            meta_key: None,
            meta_value: None,
            meta_value_num: None,
            meta_compare: None,
            meta_query: None,
            post_mime_type: None,
        }
    }
}

/// A number of comments and how a post's own count compares with it.
#[derive(Debug)]
pub struct CommentCount {
    pub value: u64,
    pub compare: SqlCompareOperator,
}

/// The list after `item` came: the list so far, or none, with `item` at the
/// end.
pub open spec fn pushed<T>(list: Option<Vec<T>>, item: T) -> Seq<T> {
    match list {
        Some(v) => v@.push(item),
        None => seq![item],
    }
}

} // verus!
