//! The builder of a description of posts: one call per filter.

use std::fmt::Display;
use vstd::prelude::*;

use crate::params::date_query::DateQuery;
use crate::params::groups::groups_with;
use crate::params::meta_query::{MetaQuery, MetaQueryMap, MetaRelation};
use crate::params::orderby::WpOrderBy;
use crate::params::post_type::PostType;
use crate::params::tax_query::{TaxQuery, TaxQueryMap, TaxRelation};
use crate::params::traits::{MetaQueryable, PostQueryable};
use crate::params::{pushed, Params};
use crate::sql::{SqlOrder, SqlSearchOperators};
use crate::wp_post::post_status::PostStatus;

verus! {

/// Builds a description of posts by chained calls, each of which consumes
/// the builder and hands it back.
///
/// Date parts must be in range, and the single custom-field filter cannot be
/// set once grouped custom-field clauses are present.
pub struct ParamBuilder<'a>(pub Params<'a>);

/// Puts `item` at the end of the list, starting one where there is none.
fn push_to<T>(list: Option<Vec<T>>, item: T) -> (r: Vec<T>)
    ensures
        r@ == pushed(list, item),
{
    let mut v = match list {
        Some(v) => v,
        None => Vec::new(),
    };
    v.push(item);
    v
}

#[allow(non_snake_case)]
impl<'a> ParamBuilder<'a> {
    /// A builder that holds no filter yet.
    pub fn new() -> (r: Self)
        ensures
            r.0 == Params::<'a>::blank(),
            r.0.is_well_formed(),
    {
        ParamBuilder(Params::new())
    }

    /// Hands out the description built.
    pub fn params(self) -> (r: Params<'a>)
        ensures
            r == self.0,
    {
        self.0
    }

    /// Selects the posts of one author, by id.
    pub fn author(self, author_id: u64) -> (r: Self)
        ensures
            self.0.is_well_formed() ==> r.0.is_well_formed(),
            r.0 == (Params { author: Some(author_id), ..self.0 }),
    {
        let mut b = self;
        b.0.author = Some(author_id);
        b
    }

    /// Selects the posts of one author, by `user_nicename`.
    pub fn author_name(self, s: &'a str) -> (r: Self)
        ensures
            self.0.is_well_formed() ==> r.0.is_well_formed(),
            r.0 == (Params { author_name: Some(s), ..self.0 }),
    {
        let mut b = self;
        b.0.author_name = Some(s);
        b
    }

    /// Admits one more author id.
    pub fn author__in(self, author_id: u64) -> (r: Self)
        ensures
            self.0.is_well_formed() ==> r.0.is_well_formed(),
            r.0.author__in is Some,
            r.0.author__in->0@ == pushed(self.0.author__in, author_id),
            r.0 == (Params { author__in: r.0.author__in, ..self.0 }),
    {
        let mut b = self;
        let list = b.0.author__in;
        b.0.author__in = Some(push_to(list, author_id));
        b
    }

    /// Excludes one more author id.
    pub fn author__not_in(self, author_id: u64) -> (r: Self)
        ensures
            self.0.is_well_formed() ==> r.0.is_well_formed(),
            r.0.author__not_in is Some,
            r.0.author__not_in->0@ == pushed(self.0.author__not_in, author_id),
            r.0 == (Params { author__not_in: r.0.author__not_in, ..self.0 }),
    {
        let mut b = self;
        let list = b.0.author__not_in;
        b.0.author__not_in = Some(push_to(list, author_id));
        b
    }

    /// Asks for one more category, by id.
    pub fn cat(self, cat_id: u64) -> (r: Self)
        ensures
            self.0.is_well_formed() ==> r.0.is_well_formed(),
            r.0.term_and is Some,
            r.0.term_and->0@ == pushed(self.0.term_and, cat_id),
            r.0 == (Params { term_and: r.0.term_and, ..self.0 }),
    {
        let mut b = self;
        let list = b.0.term_and;
        b.0.term_and = Some(push_to(list, cat_id));
        b
    }

    /// Asks for one more category, by slug.
    pub fn category_name(self, s: &'a str) -> (r: Self)
        ensures
            self.0.is_well_formed() ==> r.0.is_well_formed(),
            r.0.term_slug_and is Some,
            r.0.term_slug_and->0@ == pushed(self.0.term_slug_and, s),
            r.0 == (Params { term_slug_and: r.0.term_slug_and, ..self.0 }),
    {
        let mut b = self;
        let list = b.0.term_slug_and;
        b.0.term_slug_and = Some(push_to(list, s));
        b
    }

    /// Asks for one more category, by id.
    pub fn category__and(self, cat_id: u64) -> (r: Self)
        ensures
            self.0.is_well_formed() ==> r.0.is_well_formed(),
            r.0.term_and is Some,
            r.0.term_and->0@ == pushed(self.0.term_and, cat_id),
            r.0 == (Params { term_and: r.0.term_and, ..self.0 }),
    {
        let mut b = self;
        let list = b.0.term_and;
        b.0.term_and = Some(push_to(list, cat_id));
        b
    }

    /// Admits one more category id.
    pub fn category__in(self, cat_id: u64) -> (r: Self)
        ensures
            self.0.is_well_formed() ==> r.0.is_well_formed(),
            r.0.term_in is Some,
            r.0.term_in->0@ == pushed(self.0.term_in, cat_id),
            r.0 == (Params { term_in: r.0.term_in, ..self.0 }),
    {
        let mut b = self;
        let list = b.0.term_in;
        b.0.term_in = Some(push_to(list, cat_id));
        b
    }

    /// Excludes one more category id.
    pub fn category__not_in(self, cat_id: u64) -> (r: Self)
        ensures
            self.0.is_well_formed() ==> r.0.is_well_formed(),
            r.0.term_not_in is Some,
            r.0.term_not_in->0@ == pushed(self.0.term_not_in, cat_id),
            r.0 == (Params { term_not_in: r.0.term_not_in, ..self.0 }),
    {
        let mut b = self;
        let list = b.0.term_not_in;
        b.0.term_not_in = Some(push_to(list, cat_id));
        b
    }

    /// Asks for one more tag, by slug.
    pub fn tag(self, slug: &'a str) -> (r: Self)
        ensures
            self.0.is_well_formed() ==> r.0.is_well_formed(),
            r.0.term_slug_and is Some,
            r.0.term_slug_and->0@ == pushed(self.0.term_slug_and, slug),
            r.0 == (Params { term_slug_and: r.0.term_slug_and, ..self.0 }),
    {
        let mut b = self;
        let list = b.0.term_slug_and;
        b.0.term_slug_and = Some(push_to(list, slug));
        b
    }

    /// Asks for one more tag, by id.
    pub fn tag_id(self, tag_id: u64) -> (r: Self)
        ensures
            self.0.is_well_formed() ==> r.0.is_well_formed(),
            r.0.term_and is Some,
            r.0.term_and->0@ == pushed(self.0.term_and, tag_id),
            r.0 == (Params { term_and: r.0.term_and, ..self.0 }),
    {
        let mut b = self;
        let list = b.0.term_and;
        b.0.term_and = Some(push_to(list, tag_id));
        b
    }

    /// Asks for one more tag, by id.
    pub fn tag__and(self, tag_id: u64) -> (r: Self)
        ensures
            self.0.is_well_formed() ==> r.0.is_well_formed(),
            r.0.term_and is Some,
            r.0.term_and->0@ == pushed(self.0.term_and, tag_id),
            r.0 == (Params { term_and: r.0.term_and, ..self.0 }),
    {
        let mut b = self;
        let list = b.0.term_and;
        b.0.term_and = Some(push_to(list, tag_id));
        b
    }

    /// Admits one more tag id.
    pub fn tag__in(self, tag_id: u64) -> (r: Self)
        ensures
            self.0.is_well_formed() ==> r.0.is_well_formed(),
            r.0.term_in is Some,
            r.0.term_in->0@ == pushed(self.0.term_in, tag_id),
            r.0 == (Params { term_in: r.0.term_in, ..self.0 }),
    {
        let mut b = self;
        let list = b.0.term_in;
        b.0.term_in = Some(push_to(list, tag_id));
        b
    }

    /// Excludes one more tag id.
    pub fn tag__not_in(self, tag_id: u64) -> (r: Self)
        ensures
            self.0.is_well_formed() ==> r.0.is_well_formed(),
            r.0.term_not_in is Some,
            r.0.term_not_in->0@ == pushed(self.0.term_not_in, tag_id),
            r.0 == (Params { term_not_in: r.0.term_not_in, ..self.0 }),
    {
        let mut b = self;
        let list = b.0.term_not_in;
        b.0.term_not_in = Some(push_to(list, tag_id));
        b
    }

    /// Asks for one more tag, by slug.
    pub fn tag_slug__and(self, tag_slug: &'a str) -> (r: Self)
        ensures
            self.0.is_well_formed() ==> r.0.is_well_formed(),
            r.0.term_slug_and is Some,
            r.0.term_slug_and->0@ == pushed(self.0.term_slug_and, tag_slug),
            r.0 == (Params { term_slug_and: r.0.term_slug_and, ..self.0 }),
    {
        let mut b = self;
        let list = b.0.term_slug_and;
        b.0.term_slug_and = Some(push_to(list, tag_slug));
        b
    }

    /// Admits one more tag slug.
    pub fn tag_slug__in(self, tag_slug: &'a str) -> (r: Self)
        ensures
            self.0.is_well_formed() ==> r.0.is_well_formed(),
            r.0.term_slug_in is Some,
            r.0.term_slug_in->0@ == pushed(self.0.term_slug_in, tag_slug),
            r.0 == (Params { term_slug_in: r.0.term_slug_in, ..self.0 }),
    {
        let mut b = self;
        let list = b.0.term_slug_in;
        b.0.term_slug_in = Some(push_to(list, tag_slug));
        b
    }

    /// Files one taxonomy clause. With a relation it joins the clauses
    /// already filed under that relation; without one it replaces all clauses
    /// filed so far and stands alone under `Single`.
    pub fn tax_query(self, query: TaxQuery<'a>, relation: Option<TaxRelation>) -> (r: Self)
        ensures
            self.0.is_well_formed() ==> r.0.is_well_formed(),
            r.0.tax_query is Some,
            r.0.tax_query->0@ == (match relation {
                Some(rel) => groups_with(
                    match self.0.tax_query {
                        Some(m) => m@,
                        None => Seq::empty(),
                    },
                    rel,
                    query,
                ),
                None => seq![(TaxRelation::Single, seq![query])],
            }),
            r.0 == (Params { tax_query: r.0.tax_query, ..self.0 }),
    {
        let mut b = self;
        let filed = b.0.tax_query;
        let tax_q = match filed {
            Some(m) => m,
            None => TaxQueryMap::new(),
        };
        match relation {
            Some(rel) => {
                b.0.tax_query = Some(tax_q.add(rel, query));
            },
            None => {
                b.0.tax_query = Some(TaxQuery::new_single_tax_map(query));
            },
        }
        b
    }

    /// Sets the search keyword.
    pub fn s(self, s: &'a str) -> (r: Self)
        ensures
            self.0.is_well_formed() ==> r.0.is_well_formed(),
            r.0 == (Params { s: Some(s), ..self.0 }),
    {
        let mut b = self;
        b.0.s = Some(s);
        b
    }

    /// Selects one post, by id.
    pub fn p(self, id: u64) -> (r: Self)
        ensures
            self.0.is_well_formed() ==> r.0.is_well_formed(),
            r.0 == (Params { p: Some(id), ..self.0 }),
    {
        let mut b = self;
        b.0.p = Some(id);
        b
    }

    /// Selects one post, by slug.
    pub fn name(self, slug: &'a str) -> (r: Self)
        ensures
            self.0.is_well_formed() ==> r.0.is_well_formed(),
            r.0 == (Params { name: Some(slug), ..self.0 }),
    {
        let mut b = self;
        b.0.name = Some(slug);
        b
    }

    /// Reserved; changes nothing.
    pub fn page_id(self) -> (r: Self)
        ensures
            r == self,
    {
        self
    }

    /// Reserved; changes nothing.
    pub fn pagename(self) -> (r: Self)
        ensures
            r == self,
    {
        self
    }

    /// Reserved; changes nothing.
    pub fn post_password(self) -> (r: Self)
        ensures
            r == self,
    {
        self
    }

    /// Sets the number of comments wanted.
    pub fn comment_count(self, count: u64) -> (r: Self)
        ensures
            self.0.is_well_formed() ==> r.0.is_well_formed(),
            r.0 == (Params { comment_count: Some(count), ..self.0 }),
    {
        let mut b = self;
        b.0.comment_count = Some(count);
        b
    }

    /// Sets the page size.
    pub fn posts_per_page(self, n: u64) -> (r: Self)
        ensures
            self.0.is_well_formed() ==> r.0.is_well_formed(),
            r.0 == (Params { posts_per_page: Some(n), ..self.0 }),
    {
        let mut b = self;
        b.0.posts_per_page = Some(n);
        b
    }

    /// Selects a page of the result; pages are counted from 1.
    pub fn page(self, n: u64) -> (r: Self)
        requires
            n >= 1,
        ensures
            self.0.is_well_formed() ==> r.0.is_well_formed(),
            r.0 == (Params { page: Some((n - 1) as u64), ..self.0 }),
    {
        let mut b = self;
        b.0.page = Some(n - 1);
        b
    }

    /// Reserved; changes nothing.
    pub fn ignore_sticky_posts(self) -> (r: Self)
        ensures
            r == self,
    {
        self
    }

    /// Sets the sort direction.
    pub fn order(self, o: SqlOrder) -> (r: Self)
        ensures
            self.0.is_well_formed() ==> r.0.is_well_formed(),
            r.0 == (Params { order: Some(o), ..self.0 }),
    {
        let mut b = self;
        b.0.order = Some(o);
        b
    }

    /// Sets the column to sort by.
    pub fn orderby(self, ob: WpOrderBy) -> (r: Self)
        ensures
            self.0.is_well_formed() ==> r.0.is_well_formed(),
            r.0 == (Params { orderby: Some(ob), ..self.0 }),
    {
        let mut b = self;
        b.0.orderby = Some(ob);
        b
    }

    /// A four-digit year.
    pub fn year(self, y: u16) -> (r: Self)
        requires
            y <= 9999,
        ensures
            self.0.is_well_formed() ==> r.0.is_well_formed(),
            r.0 == (Params { year: Some(y), ..self.0 }),
    {
        let mut b = self;
        b.0.year = Some(y);
        b
    }

    /// Month number, from 1 to 12.
    pub fn monthnum(self, m: u8) -> (r: Self)
        requires
            1 <= m <= 12,
        ensures
            self.0.is_well_formed() ==> r.0.is_well_formed(),
            r.0 == (Params { monthnum: Some(m), ..self.0 }),
    {
        let mut b = self;
        b.0.monthnum = Some(m);
        b
    }

    /// Week of the year, from 0 to 53.
    pub fn w(self, w: u8) -> (r: Self)
        requires
            w <= 53,
        ensures
            self.0.is_well_formed() ==> r.0.is_well_formed(),
            r.0 == (Params { w: Some(w), ..self.0 }),
    {
        let mut b = self;
        b.0.w = Some(w);
        b
    }

    /// Day of the month, from 1 to 31.
    pub fn day(self, d: u8) -> (r: Self)
        requires
            1 <= d <= 31,
        ensures
            self.0.is_well_formed() ==> r.0.is_well_formed(),
            r.0 == (Params { day: Some(d), ..self.0 }),
    {
        let mut b = self;
        b.0.day = Some(d);
        b
    }

    /// Hour, from 0 to 23.
    pub fn hour(self, h: u8) -> (r: Self)
        requires
            h <= 23,
        ensures
            self.0.is_well_formed() ==> r.0.is_well_formed(),
            r.0 == (Params { hour: Some(h), ..self.0 }),
    {
        let mut b = self;
        b.0.hour = Some(h);
        b
    }

    /// Minute, from 0 to 60.
    pub fn minute(self, min: u8) -> (r: Self)
        requires
            min <= 60,
        ensures
            self.0.is_well_formed() ==> r.0.is_well_formed(),
            r.0 == (Params { minute: Some(min), ..self.0 }),
    {
        let mut b = self;
        b.0.minute = Some(min);
        b
    }

    /// Second, from 0 to 60.
    pub fn second(self, s: u8) -> (r: Self)
        requires
            s <= 60,
        ensures
            self.0.is_well_formed() ==> r.0.is_well_formed(),
            r.0 == (Params { second: Some(s), ..self.0 }),
    {
        let mut b = self;
        b.0.second = Some(s);
        b
    }

    /// Year and month in one number, such as 201307. Replaces a year and a
    /// month given apart.
    pub fn m(self, m: u64) -> (r: Self)
        requires
            m <= 999999,
        ensures
            self.0.is_well_formed() ==> r.0.is_well_formed(),
            r.0 == (Params { monthnum: None, year: None, m: Some(m), ..self.0 }),
    {
        let mut b = self;
        b.0.monthnum = None;
        b.0.year = None;
        b.0.m = Some(m);
        b
    }

    /// Adds one more date filter.
    pub fn date_query(self, query: DateQuery) -> (r: Self)
        ensures
            self.0.is_well_formed() ==> r.0.is_well_formed(),
            r.0.date_query is Some,
            r.0.date_query->0@ == pushed(self.0.date_query, query),
            r.0 == (Params { date_query: r.0.date_query, ..self.0 }),
    {
        let mut b = self;
        let list = b.0.date_query;
        b.0.date_query = Some(push_to(list, query));
        b
    }

    /// Reserved; changes nothing.
    pub fn post_mime_type(self) -> (r: Self)
        ensures
            r == self,
    {
        self
    }
}

#[allow(non_snake_case)]
impl<'a> PostQueryable<'a> for ParamBuilder<'a> {
    open spec fn built(&self) -> Params<'a> {
        self.0
    }

    fn post_parent(self, id: u64) -> (r: Self) {
        let mut b = self;
        b.0.post_parent = Some(id);
        b
    }

    fn post_parent__in(self, id: u64) -> (r: Self) {
        let mut b = self;
        let list = b.0.post_parent__in;
        b.0.post_parent__in = Some(push_to(list, id));
        b
    }

    fn post_parent__not_in(self, id: u64) -> (r: Self) {
        let mut b = self;
        let list = b.0.post_parent__not_in;
        b.0.post_parent__not_in = Some(push_to(list, id));
        b
    }

    fn post__in(self, id: u64) -> (r: Self) {
        let mut b = self;
        let list = b.0.post__in;
        b.0.post__in = Some(push_to(list, id));
        b
    }

    fn post__not_in(self, id: u64) -> (r: Self) {
        let mut b = self;
        let list = b.0.post__not_in;
        b.0.post__not_in = Some(push_to(list, id));
        b
    }

    fn post_name__in(self, s: &'a str) -> (r: Self) {
        let mut b = self;
        let list = b.0.post_name__in;
        b.0.post_name__in = Some(push_to(list, s));
        b
    }

    fn post_type(self, post_type: PostType) -> (r: Self) {
        let mut b = self;
        let list = b.0.post_type;
        b.0.post_type = Some(push_to(list, post_type));
        b
    }

    fn post_type_all(self) -> (r: Self) {
        let mut b = self;
        b.0.post_type = Some(Vec::new());
        b
    }

    fn post_status(self, status: PostStatus) -> (r: Self) {
        let mut b = self;
        b.0.post_status = Some(status);
        b
    }
}

impl<'a> MetaQueryable<'a> for ParamBuilder<'a> {
    open spec fn built_meta(&self) -> Params<'a> {
        self.0
    }

    fn meta_key(self, key: &'a str) -> (r: Self) {
        let mut b = self;
        b.0.meta_key = Some(key);
        b
    }

    fn meta_value<T: Display>(self, val: T) -> (r: Self) {
        let mut b = self;
        b.0.meta_value_num = None;
        b.0.meta_value = Some(val.to_string());
        b
    }

    fn meta_value_num(self, n: i64) -> (r: Self) {
        let mut b = self;
        b.0.meta_value = None;
        b.0.meta_value_num = Some(n);
        b
    }

    fn meta_compare(self, compare: SqlSearchOperators) -> (r: Self) {
        let mut b = self;
        b.0.meta_compare = Some(compare);
        b
    }

    fn meta_query(self, query: MetaQuery, relation: MetaRelation) -> (r: Self) {
        let mut b = self;
        b.0.meta_compare = None;
        b.0.meta_key = None;
        b.0.meta_value = None;
        b.0.meta_value_num = None;
        let filed = b.0.meta_query;
        let meta_qs = match filed {
            Some(m) => m,
            None => MetaQueryMap::new(),
        };
        b.0.meta_query = Some(meta_qs.add(relation, query));
        b
    }
}

impl<'a> From<ParamBuilder<'a>> for Params<'a> {
    fn from(builder: ParamBuilder<'a>) -> (r: Params<'a>) {
        builder.0
    }
}

impl<'a> vstd::std_specs::convert::FromSpecImpl<ParamBuilder<'a>> for Params<'a> {
    open spec fn obeys_from_spec() -> bool {
        true
    }

    open spec fn from_spec(builder: ParamBuilder<'a>) -> Params<'a> {
        builder.0
    }
}

} // verus!
