//! Turns a description of posts into a statement and its bound values.

use std::fmt::Display;
use vstd::prelude::*;
use vstd::string::to_string_from_display_ensures;

use crate::params::date_query::{date_value, DateQuery};
use crate::params::groups::{Groups, Relation};
use crate::params::meta_query::{MetaQuery, MetaQueryMap, MetaRelation};
use crate::params::post_type::PostType;
use crate::params::tax_query::{TaxQuery, TaxRelation};
use crate::params::Params;
use crate::sql::{SqlOrder, SqlSearchOperators};
use crate::text::{placeholder_count, question_marks};
use crate::value::{id_values, string_values, text_value, text_values, values_view, SqlValue};
use crate::wp_post::post_status::PostStatus;

use self::clauses::{
    after_test, author_clause, before_test, bound, date_bound_text, date_clause,
    date_queries_clause, date_test, date_tests, exact_date_test, fixed, has_single_date, id_clause,
    id_list_clause, joined_groups, joined_tests, joins_clause, lemma_with_is_associative,
    lemma_with_nothing, list_clause, meta_clause, meta_clauses, meta_groups, meta_key_clause,
    meta_keyed, meta_number_clause, meta_query_clause, meta_test, meta_value_clause,
    needs_meta_join, needs_term_join, needs_user_join, nothing, order_clause, page_clause,
    page_is_addressable, page_size, post_clause, post_type_clause, post_type_values, search_clause,
    select_clause, single_date_clause, single_meta_clause, slug_tests, statement, status_clause,
    tax_clauses, tax_keyed, tax_query_clause, tax_test, term_clause, text_clause, text_list_clause,
    Clause,
};
use self::parity::lemma_statement_is_balanced;

pub mod clauses;
pub mod laws;
pub mod parity;

verus! {

/// A statement and the values bound to its placeholders, in the order of
/// the placeholders.
#[derive(Debug)]
pub struct QueryAndValues(pub String, pub Vec<SqlValue>);

impl View for QueryAndValues {
    type V = Clause;

    open spec fn view(&self) -> Clause {
        Clause { text: self.0@, values: values_view(self.1@) }
    }
}

/// Builds the statement for one description of posts.
pub struct QueryBuilder<'a> {
    params: Params<'a>,
    query: String,
    values: Vec<SqlValue>,
}

/// Texts separated by commas.
pub open spec fn comma_joined(parts: Seq<String>) -> Seq<char>
    decreases parts.len(),
{
    if parts.len() == 0 {
        Seq::empty()
    } else if parts.len() == 1 {
        parts[0]@
    } else {
        comma_joined(parts.drop_last()) + ","@ + parts.last()@
    }
}

/// Whether `parts` are the texts that the items display as, one for one.
pub open spec fn displayed_as<T: Display>(items: Seq<T>, parts: Seq<String>) -> bool {
    &&& parts.len() == items.len()
    &&& forall|i: int|
        0 <= i < items.len() ==> to_string_from_display_ensures::<T>(
            &items[i],
            #[trigger] parts[i],
        )
}

/// Writes the items as they display, separated by commas.
pub fn implode<T: Display>(v: &[T]) -> (r: String)
    ensures
        exists|parts: Seq<String>| displayed_as(v@, parts) && r@ == comma_joined(parts),
{
    let mut out = String::new();
    let ghost mut parts: Seq<String> = Seq::empty();
    let mut i: usize = 0;
    while i < v.len()
        invariant
            i <= v@.len(),
            displayed_as(v@.take(i as int), parts),
            out@ == comma_joined(parts),
        decreases v@.len() - i,
    {
        let part = v[i].to_string();
        if i > 0 {
            out.append(",");
        }
        out.append(part.as_str());
        proof {
            let longer = parts.push(part);
            assert(longer.drop_last() =~= parts);
            assert(displayed_as(v@.take(i + 1), longer)) by {
                assert forall|j: int| 0 <= j < i + 1 implies to_string_from_display_ensures::<T>(
                    &v@.take(i + 1)[j],
                    #[trigger] longer[j],
                ) by {
                    if j < i {
                        assert(v@.take(i as int)[j] == v@.take(i + 1)[j]);
                        assert(longer[j] == parts[j]);
                    }
                }
            }
            if i == 0 {
                assert(out@ =~= part@);
            }
            parts = longer;
        }
        i = i + 1;
    }
    proof {
        assert(v@.take(i as int) =~= v@);
    }
    out
}

/// Writes one placeholder for each item, separated by commas.
pub fn implode_to_question_mark<T>(v: &[T]) -> (r: String)
    ensures
        r@ == question_marks(v@.len()),
{
    question_marks_for(v.len())
}

/// Writes `n` placeholders separated by commas.
fn question_marks_for(n: usize) -> (r: String)
    ensures
        r@ == question_marks(n as nat),
{
    let mut out = String::new();
    let mut i: usize = 0;
    while i < n
        invariant
            i <= n,
            out@ == question_marks(i as nat),
        decreases n - i,
    {
        proof {
            reveal_strlit("?");
            reveal_strlit(",?");
        }
        if i == 0 {
            out.append("?");
            assert(out@ =~= seq!['?']);
        } else {
            out.append(",?");
            assert(",?"@ =~= seq![',', '?']);
        }
        i = i + 1;
    }
    out
}

/// Whether some filter on terms is present, so that the terms tables must
/// be joined.
pub fn check_if_term_join_necessary(params: &Params) -> (r: bool)
    ensures
        r == needs_term_join(*params),
{
    params.term_and.is_some() || params.term_in.is_some() || params.term_not_in.is_some()
        || params.term_slug_and.is_some() || params.term_slug_in.is_some()
        || params.tax_query.is_some()
}

/// Whether some filter on custom fields is present, so that the custom-field
/// table must be joined.
pub fn check_if_meta_join_necessary(params: &Params) -> (r: bool)
    ensures
        r == needs_meta_join(*params),
{
    params.meta_key.is_some() || params.meta_value.is_some() || params.meta_value_num.is_some()
        || params.meta_query.is_some()
}

/// Whether the author is asked for by name, so that the users table must be
/// joined.
pub fn check_if_user_join_necessary(p: &Params) -> (r: bool)
    ensures
        r == needs_user_join(*p),
{
    p.author_name.is_some()
}

/// Whether year, month and day are all given.
pub fn has_valid_single_date(p: &Params) -> (r: bool)
    ensures
        r == has_single_date(*p),
{
    p.year.is_some() && p.monthnum.is_some() && p.day.is_some()
}

/// Whether the page asked for can be addressed: its index, its size and the
/// number of rows before it fit the machine's word.
pub fn page_fits(params: &Params) -> (r: bool)
    ensures
        r == page_is_addressable(*params),
{
    match params.page {
        Some(page) => {
            let size: u64 = match params.posts_per_page {
                Some(n) => n,
                None => 10,
            };
            let word: u64 = usize::MAX as u64;
            match page.checked_mul(size) {
                Some(offset) => page <= word && size <= word && offset <= word,
                None => false,
            }
        },
        None => true,
    }
}

/// Calls `sql_paginatorr::for_page` and hands back its limit and offset: the
/// limit is the page size, the offset the product of page index and page
/// size. The product is computed in `usize`, so it has to fit.
#[verifier::external_body]
fn limit_and_offset(page: usize, page_size: usize) -> (r: (usize, usize))
    requires
        page * page_size <= usize::MAX,
    ensures
        r.0 == page_size,
        r.1 == page * page_size,
{
    let pair = sql_paginatorr::for_page(page, page_size);
    (pair.limit, pair.offset)
}

/// A clause of a group: what it writes, and the writing of it.
trait Test {
    /// The clause as the statement has it.
    spec fn test(&self) -> Clause;

    /// Appends the clause.
    fn push_onto(&self, out: &mut QueryAndValues)
        ensures
            final(out)@ == old(out)@.with(self.test()),
    ;
}

/// A relation with the keyword that joins the clauses of its group.
trait Keyword {
    /// The keyword as the statement has it.
    spec fn keyword(&self) -> Seq<char>;

    /// Writes the keyword.
    fn keyword_text(&self) -> (r: String)
        ensures
            r@ == self.keyword(),
    ;
}

impl<'a> Test for TaxQuery<'a> {
    spec fn test(&self) -> Clause {
        tax_test(*self)
    }

    fn push_onto(&self, out: &mut QueryAndValues) {
        out.push_tax_test(self)
    }
}

impl Test for MetaQuery {
    spec fn test(&self) -> Clause {
        meta_test(*self)
    }

    fn push_onto(&self, out: &mut QueryAndValues) {
        out.push_meta_test(self)
    }
}

impl Keyword for TaxRelation {
    spec fn keyword(&self) -> Seq<char> {
        self.text()
    }

    fn keyword_text(&self) -> (r: String) {
        self.to_string()
    }
}

impl Keyword for MetaRelation {
    spec fn keyword(&self) -> Seq<char> {
        self.text()
    }

    fn keyword_text(&self) -> (r: String) {
        self.to_string()
    }
}

/// Clauses as they are written, one for one.
spec fn tests_of<Q: Test>(queries: Seq<Q>) -> Seq<Clause> {
    Seq::new(queries.len(), |i: int| queries[i].test())
}

/// Groups as keyword and written clauses, one for one.
spec fn keyed<R: Keyword, Q: Test>(groups: Seq<(R, Seq<Q>)>) -> Seq<(Seq<char>, Seq<Clause>)> {
    Seq::new(groups.len(), |i: int| (groups[i].0.keyword(), tests_of(groups[i].1)))
}

/// Appends the filter on a status that is named: nothing for `Any`, which
/// stands for every status, and for any other status a test bound to its
/// stored text.
pub fn push_post_status(s: &mut String, v: &mut Vec<SqlValue>, post_status: &PostStatus)
    ensures
        *post_status == PostStatus::Any ==> *final(s) == *old(s) && *final(v) == *old(v),
        *post_status != PostStatus::Any ==> final(s)@ == old(s)@ + " AND post_status = ?"@
            && values_view(final(v)@) == values_view(old(v)@).push(
            text_value(post_status.text()),
        ),
{
    match post_status {
        PostStatus::Any => {},
        _ => {
            let ghost before = v@;
            let value = post_status.to_value();
            s.append(" AND post_status = ?");
            v.push(value);
            assert(values_view(v@) =~= values_view(before).push(value@));
        },
    }
}

/// Appends the filter on the type: the type `post`, as fixed text, where no
/// list is given; nothing for an empty list, which admits every type; and
/// for any other list a test with one placeholder for each type, bound to
/// the types in the order of the list.
pub fn push_post_type(s: &mut String, v: &mut Vec<SqlValue>, post_type: &Option<Vec<PostType>>)
    ensures
        match *post_type {
            None => final(s)@ == old(s)@ + " AND wp_posts.post_type = 'post'"@ && *final(v)
                == *old(v),
            Some(types) => if types@.len() == 0 {
                *final(s) == *old(s) && *final(v) == *old(v)
            } else {
                final(s)@ == old(s)@ + " AND wp_posts.post_type IN ("@ + question_marks(
                    types@.len(),
                ) + ")"@ && values_view(final(v)@) == values_view(old(v)@) + post_type_values(
                    types@,
                )
            },
        },
{
    match post_type {
        Some(post_types) => {
            if post_types.len() == 0 {
                return ;
            }
            let q_marks = implode_to_question_mark(post_types.as_slice());
            s.append(" AND wp_posts.post_type IN (");
            s.append(q_marks.as_str());
            s.append(")");
            let ghost base = v@;
            let mut i: usize = 0;
            while i < post_types.len()
                invariant
                    i <= post_types@.len(),
                    s@ == old(s)@ + " AND wp_posts.post_type IN ("@ + question_marks(
                        post_types@.len(),
                    ) + ")"@,
                    base == old(v)@,
                    values_view(v@) =~= values_view(base) + post_type_values(
                        post_types@.take(i as int),
                    ),
                decreases post_types@.len() - i,
            {
                let ghost before = v@;
                let name = post_types[i].to_string();
                let value = SqlValue::from_text(name.as_str());
                v.push(value);
                proof {
                    assert(post_types@.take(i + 1) =~= post_types@.take(i as int).push(
                        post_types@[i as int],
                    ));
                    assert(values_view(v@) =~= values_view(before).push(value@));
                    assert(post_type_values(post_types@.take(i + 1)) =~= post_type_values(
                        post_types@.take(i as int),
                    ).push(value@));
                }
                i = i + 1;
            }
            proof {
                assert(post_types@.take(i as int) =~= post_types@);
            }
        },
        None => {
            s.append(" AND wp_posts.post_type = 'post'");
        },
    }
}

impl QueryAndValues {
    /// Appends text that binds nothing.
    fn push(&mut self, text: &str)
        ensures
            final(self)@ == old(self)@.with(fixed(text@)),
    {
        self.0.append(text);
        assert(self@.values =~= old(self)@.with(fixed(text@)).values);
    }

    /// Appends text that binds one value.
    fn push_bound(&mut self, text: &str, value: SqlValue)
        ensures
            final(self)@ == old(self)@.with(bound(text@, value@)),
    {
        self.0.append(text);
        self.1.push(value);
        assert(self@.values =~= old(self)@.with(bound(text@, value@)).values);
    }

    /// Appends a test against one id, if there is one.
    fn push_id(&mut self, text: &str, id: Option<u64>)
        ensures
            final(self)@ == old(self)@.with(id_clause(text@, id)),
    {
        match id {
            Some(id) => self.push_bound(text, SqlValue::UInt(id)),
            None => self.push_nothing(),
        }
    }

    /// Appends a test against one text, if there is one.
    fn push_text(&mut self, text: &str, value: Option<&str>)
        ensures
            final(self)@ == old(self)@.with(text_clause(text@, value)),
    {
        match value {
            Some(value) => self.push_bound(text, SqlValue::from_text(value)),
            None => self.push_nothing(),
        }
    }

    /// Appends nothing: text and values stay as they are, which is what
    /// appending the empty clause comes to.
    fn push_nothing(&mut self)
        ensures
            *final(self) == *old(self),
            final(self)@ == old(self)@.with(nothing()),
    {
        assert(self@.text =~= old(self)@.with(nothing()).text);
        assert(self@.values =~= old(self)@.with(nothing()).values);
    }

    /// Appends `opening`, `n` placeholders and the closing bracket. The
    /// values are left to the caller.
    fn push_list_text(&mut self, opening: &str, n: usize)
        ensures
            final(self).0@ == old(self).0@ + opening@ + question_marks(n as nat) + ")"@,
            final(self).1 == old(self).1,
    {
        let marks = question_marks_for(n);
        self.0.append(opening);
        self.0.append(marks.as_str());
        self.0.append(")");
    }

    /// Appends a test against a list of ids, if there is one.
    fn push_id_list(&mut self, opening: &str, ids: &Option<Vec<u64>>)
        ensures
            final(self)@ == old(self)@.with(id_list_clause(opening@, *ids)),
    {
        match ids {
            Some(ids) => {
                self.push_list_text(opening, ids.len());
                let ghost base = self.1@;
                let mut i: usize = 0;
                while i < ids.len()
                    invariant
                        i <= ids@.len(),
                        self.0@ == old(self).0@ + opening@ + question_marks(ids@.len()) + ")"@,
                        values_view(self.1@) =~= values_view(base) + id_values(ids@.take(i as int)),
                    decreases ids@.len() - i,
                {
                    let ghost before = self.1@;
                    let value = SqlValue::UInt(ids[i]);
                    self.1.push(value);
                    proof {
                        assert(ids@.take(i + 1) =~= ids@.take(i as int).push(ids@[i as int]));
                        assert(values_view(self.1@) =~= values_view(before).push(value@));
                        assert(id_values(ids@.take(i + 1)) =~= id_values(
                            ids@.take(i as int),
                        ).push(value@));
                    }
                    i = i + 1;
                }
                proof {
                    assert(ids@.take(i as int) =~= ids@);
                    let target = old(self)@.with(list_clause(opening@, id_values(ids@)));
                    assert(self@.text =~= target.text);
                    assert(self@.values =~= target.values);
                }
            },
            None => self.push_nothing(),
        }
    }

    /// Appends a test against a list of texts, if there is one.
    fn push_text_list(&mut self, opening: &str, texts: &Option<Vec<&str>>)
        ensures
            final(self)@ == old(self)@.with(text_list_clause(opening@, *texts)),
    {
        match texts {
            Some(texts) => {
                self.push_list_text(opening, texts.len());
                let ghost base = self.1@;
                let mut i: usize = 0;
                while i < texts.len()
                    invariant
                        i <= texts@.len(),
                        self.0@ == old(self).0@ + opening@ + question_marks(texts@.len()) + ")"@,
                        values_view(self.1@) =~= values_view(base) + text_values(
                            texts@.take(i as int),
                        ),
                    decreases texts@.len() - i,
                {
                    let ghost before = self.1@;
                    let value = SqlValue::from_text(texts[i]);
                    self.1.push(value);
                    proof {
                        assert(texts@.take(i + 1) =~= texts@.take(i as int).push(texts@[i as int]));
                        assert(values_view(self.1@) =~= values_view(before).push(value@));
                        assert(text_values(texts@.take(i + 1)) =~= text_values(
                            texts@.take(i as int),
                        ).push(value@));
                    }
                    i = i + 1;
                }
                proof {
                    assert(texts@.take(i as int) =~= texts@);
                    let target = old(self)@.with(list_clause(opening@, text_values(texts@)));
                    assert(self@.text =~= target.text);
                    assert(self@.values =~= target.values);
                }
            },
            None => self.push_nothing(),
        }
    }

    /// Appends the values that bind a list of owned texts.
    fn push_string_values(&mut self, texts: &Vec<String>)
        ensures
            final(self).0 == old(self).0,
            values_view(final(self).1@) == values_view(old(self).1@) + string_values(texts@),
    {
        let ghost base = self.1@;
        let mut i: usize = 0;
        while i < texts.len()
            invariant
                i <= texts@.len(),
                self.0 == old(self).0,
                values_view(self.1@) =~= values_view(base) + string_values(texts@.take(i as int)),
            decreases texts@.len() - i,
        {
            let ghost before = self.1@;
            let value = SqlValue::from_text(texts[i].as_str());
            self.1.push(value);
            proof {
                assert(texts@.take(i + 1) =~= texts@.take(i as int).push(texts@[i as int]));
                assert(values_view(self.1@) =~= values_view(before).push(value@));
                assert(string_values(texts@.take(i + 1)) =~= string_values(
                    texts@.take(i as int),
                ).push(value@));
            }
            i = i + 1;
        }
        proof {
            assert(texts@.take(i as int) =~= texts@);
        }
    }

    /// Appends the joins that the description needs.
    fn push_joins(&mut self, p: &Params)
        ensures
            final(self)@ == old(self)@.with(joins_clause(*p)),
    {
        if check_if_meta_join_necessary(p) {
            self.push(" INNER JOIN wp_postmeta ON wp_postmeta.post_id = wp_posts.ID");
        } else {
            self.push_nothing();
        }
        if check_if_term_join_necessary(p) {
            self.push(
                " INNER JOIN wp_term_relationships
            ON wp_posts.ID = wp_term_relationships.object_id
            INNER JOIN wp_term_taxonomy ON wp_term_taxonomy.term_taxonomy_id = wp_term_relationships.term_taxonomy_id
            INNER JOIN wp_terms ON wp_terms.term_id = wp_term_taxonomy.term_id",
            );
        } else {
            self.push_nothing();
        }
        if check_if_user_join_necessary(p) {
            self.push(" INNER JOIN wp_users ON wp_users.ID = wp_posts.post_author");
        } else {
            self.push_nothing();
        }
        proof {
            let target = old(self)@.with(joins_clause(*p));
            assert(self@.text =~= target.text);
            assert(self@.values =~= target.values);
        }
    }

    /// Appends the filters on the author.
    fn push_author(&mut self, p: &Params)
        ensures
            final(self)@ == old(self)@.with(author_clause(*p)),
    {
        self.push_id(" AND post_author = ?", p.author);
        self.push_text(" AND wp_users.user_nicename = ?", p.author_name);
        self.push_id_list(" AND post_author IN (", &p.author__in);
        self.push_id_list(" AND post_author NOT IN (", &p.author__not_in);
        proof {
            let target = old(self)@.with(author_clause(*p));
            assert(self@.text =~= target.text);
            assert(self@.values =~= target.values);
        }
    }

    /// Appends the filter on the status: published posts where none is
    /// named.
    fn push_status(&mut self, p: &Params)
        ensures
            final(self)@ == old(self)@.with(status_clause(*p)),
    {
        match p.post_status {
            None => self.push_bound(" AND post_status = ?", PostStatus::Publish.to_value()),
            Some(status) => {
                push_post_status(&mut self.0, &mut self.1, &status);
                proof {
                    let target = old(self)@.with(status_clause(*p));
                    assert(self@.text =~= target.text);
                    assert(self@.values =~= target.values);
                }
            },
        }
    }

    /// Appends one test for each slug.
    fn push_slug_tests(&mut self, slugs: &Vec<&str>)
        ensures
            final(self)@ == old(self)@.with(slug_tests(slugs@)),
    {
        self.push_nothing();
        let mut i: usize = 0;
        while i < slugs.len()
            invariant
                i <= slugs@.len(),
                self@ == old(self)@.with(slug_tests(slugs@.take(i as int))),
            decreases slugs@.len() - i,
        {
            self.push_bound(" AND wp_terms.slug = ?", SqlValue::from_text(slugs[i]));
            proof {
                let done = slugs@.take(i as int);
                let more = slugs@.take(i + 1);
                assert(more.drop_last() =~= done);
                lemma_with_is_associative(
                    old(self)@,
                    slug_tests(done),
                    bound(" AND wp_terms.slug = ?"@, crate::value::text_value(slugs@[i as int]@)),
                );
            }
            i = i + 1;
        }
        proof {
            assert(slugs@.take(i as int) =~= slugs@);
        }
    }

    /// Appends the filters on terms.
    fn push_terms(&mut self, p: &Params)
        ensures
            final(self)@ == old(self)@.with(term_clause(*p)),
    {
        match &p.term_slug_and {
            Some(slugs) => self.push_slug_tests(slugs),
            None => self.push_nothing(),
        }
        self.push_text_list(" AND wp_terms.slug IN (", &p.term_slug_in);
        self.push_id_list(" AND wp_terms.term_id IN (", &p.term_in);
        self.push_id_list(" AND wp_terms.term_id NOT IN (", &p.term_not_in);
        proof {
            let target = old(self)@.with(term_clause(*p));
            assert(self@.text =~= target.text);
            assert(self@.values =~= target.values);
        }
    }

    /// Appends one taxonomy clause.
    fn push_tax_test(&mut self, q: &TaxQuery)
        ensures
            final(self)@ == old(self)@.with(tax_test(*q)),
    {
        let field = q.field.to_string();
        let operator = q.operator.to_string();
        self.push(" wp_");
        self.push(field.as_str());
        self.push(" ");
        self.push(operator.as_str());
        self.push_list_text(" (", q.terms.len());
        self.push_string_values(&q.terms);
        proof {
            let target = old(self)@.with(tax_test(*q));
            assert(self@.text =~= target.text);
            assert(self@.values =~= target.values);
        }
    }

    /// Appends the clauses of one group, each after the first preceded by
    /// the keyword.
    fn push_joined<Q: Test>(&mut self, keyword: &str, queries: &Vec<Q>)
        ensures
            final(self)@ == old(self)@.with(joined_tests(keyword@, tests_of(queries@))),
    {
        let ghost tests = tests_of(queries@);
        self.push_nothing();
        let mut i: usize = 0;
        while i < queries.len()
            invariant
                i <= queries@.len(),
                tests == tests_of(queries@),
                self@ == old(self)@.with(joined_tests(keyword@, tests.take(i as int))),
            decreases queries@.len() - i,
        {
            let ghost before = self@;
            if i > 0 {
                self.push(" ");
                self.push(keyword);
            }
            queries[i].push_onto(self);
            proof {
                let done = tests.take(i as int);
                let more = tests.take(i + 1);
                assert(more.drop_last() =~= done);
                assert(more.last() == queries@[i as int].test());
                let joint = if more.len() > 1 {
                    fixed(" "@ + keyword@)
                } else {
                    nothing()
                };
                let step = joint.with(more.last());
                assert(self@.text =~= before.with(step).text);
                assert(self@.values =~= before.with(step).values);
                lemma_with_is_associative(old(self)@, joined_tests(keyword@, done), step);
                lemma_with_is_associative(joined_tests(keyword@, done), joint, more.last());
            }
            i = i + 1;
        }
        proof {
            assert(tests.take(i as int) =~= tests);
        }
    }

    /// Appends groups of clauses, each group introduced by `AND`.
    fn push_groups<R: Relation + Keyword, Q: Test>(&mut self, groups: &Groups<R, Q>)
        ensures
            final(self)@ == old(self)@.with(joined_groups(keyed(groups@))),
    {
        let ghost all = keyed(groups@);
        self.push_nothing();
        let mut i: usize = 0;
        while i < groups.len()
            invariant
                i <= groups@.len(),
                all == keyed(groups@),
                self@ == old(self)@.with(joined_groups(all.take(i as int))),
            decreases groups@.len() - i,
        {
            let ghost before = self@;
            let keyword = groups.relation_at(i).keyword_text();
            self.push(" AND");
            self.push_joined(keyword.as_str(), groups.queries_at(i));
            proof {
                let done = all.take(i as int);
                let more = all.take(i + 1);
                assert(more.drop_last() =~= done);
                let group = joined_tests(all[i as int].0, all[i as int].1);
                let step = fixed(" AND"@).with(group);
                lemma_with_is_associative(before, fixed(" AND"@), group);
                lemma_with_is_associative(old(self)@, joined_groups(done), step);
                lemma_with_is_associative(joined_groups(done), fixed(" AND"@), group);
            }
            i = i + 1;
        }
        proof {
            assert(all.take(i as int) =~= all);
        }
    }

    /// Appends the filter by taxonomy clauses.
    fn push_tax_query(&mut self, p: &Params)
        ensures
            final(self)@ == old(self)@.with(tax_query_clause(*p)),
    {
        match &p.tax_query {
            Some(map) => {
                self.push_groups(map.groups());
                proof {
                    let ours = keyed::<TaxRelation, TaxQuery>(map@);
                    assert forall|i: int| 0 <= i < ours.len() implies ours[i] == tax_keyed(
                        map@,
                    )[i] by {
                        assert(ours[i].1 =~= tax_clauses(map@[i].1));
                    }
                    assert(ours =~= tax_keyed(map@));
                }
            },
            None => self.push_nothing(),
        }
    }

    /// Appends the search for a keyword.
    fn push_search(&mut self, p: &Params)
        ensures
            final(self)@ == old(self)@.with(search_clause(*p)),
    {
        match p.s {
            Some(keyword) => {
                self.0.append(
                    " AND wp_posts.post_content LIKE CONCAT('%',?,'%') OR wp_posts.post_title LIKE CONCAT('%',?,'%')",
                );
                self.1.push(SqlValue::from_text(keyword));
                self.1.push(SqlValue::from_text(keyword));
                assert(self@.values =~= old(self)@.with(search_clause(*p)).values);
            },
            None => self.push_nothing(),
        }
    }

    /// Appends the filter on the type.
    fn push_type(&mut self, p: &Params)
        ensures
            final(self)@ == old(self)@.with(post_type_clause(*p)),
    {
        push_post_type(&mut self.0, &mut self.1, &p.post_type);
        proof {
            let target = old(self)@.with(post_type_clause(*p));
            assert(self@.text =~= target.text);
            assert(self@.values =~= target.values);
        }
    }

    /// Appends the filters on the post itself.
    fn push_post(&mut self, p: &Params)
        ensures
            final(self)@ == old(self)@.with(post_clause(*p)),
    {
        let ghost start = self@;
        let ghost c1 = id_clause(" AND wp_posts.ID = ?"@, p.p);
        let ghost c2 = text_clause(" AND wp_posts.post_name = ?"@, p.name);
        let ghost c3 = post_type_clause(*p);
        let ghost c4 = id_clause(" AND wp_posts.post_parent = ?"@, p.post_parent);
        let ghost c5 = id_list_clause(" AND wp_posts.post_parent IN ("@, p.post_parent__in);
        let ghost c6 = id_list_clause(" AND wp_posts.post_parent NOT IN ("@, p.post_parent__not_in);
        let ghost c7 = id_list_clause(" AND wp_posts.ID IN ("@, p.post__in);
        let ghost c8 = id_list_clause(" AND wp_posts.ID NOT IN ("@, p.post__not_in);
        self.push_id(" AND wp_posts.ID = ?", p.p);
        self.push_text(" AND wp_posts.post_name = ?", p.name);
        proof {
            lemma_with_is_associative(start, c1, c2);
        }
        self.push_type(p);
        proof {
            lemma_with_is_associative(start, c1.with(c2), c3);
        }
        self.push_id(" AND wp_posts.post_parent = ?", p.post_parent);
        proof {
            lemma_with_is_associative(start, c1.with(c2).with(c3), c4);
        }
        self.push_id_list(" AND wp_posts.post_parent IN (", &p.post_parent__in);
        proof {
            lemma_with_is_associative(start, c1.with(c2).with(c3).with(c4), c5);
        }
        self.push_id_list(" AND wp_posts.post_parent NOT IN (", &p.post_parent__not_in);
        proof {
            lemma_with_is_associative(start, c1.with(c2).with(c3).with(c4).with(c5), c6);
        }
        self.push_id_list(" AND wp_posts.ID IN (", &p.post__in);
        proof {
            lemma_with_is_associative(start, c1.with(c2).with(c3).with(c4).with(c5).with(c6), c7);
        }
        self.push_id_list(" AND wp_posts.ID NOT IN (", &p.post__not_in);
        proof {
            lemma_with_is_associative(
                start,
                c1.with(c2).with(c3).with(c4).with(c5).with(c6).with(c7),
                c8,
            );
        }
        self.push_text_list(" AND wp_posts.post_name IN (", &p.post_name__in);
        proof {
            lemma_with_is_associative(
                start,
                c1.with(c2).with(c3).with(c4).with(c5).with(c6).with(c7).with(c8),
                text_list_clause(" AND wp_posts.post_name IN ("@, p.post_name__in),
            );
        }
    }

    /// Appends the test of a date column against one bound of a range.
    fn push_date_bound(&mut self, q: &DateQuery, operator: &str, value: SqlValue)
        ensures
            final(self)@ == old(self)@.with(bound(date_bound_text(*q, operator@), value@)),
    {
        let relation = q.relation.to_string();
        let column = q.column.to_string();
        self.push(" ");
        self.push(relation.as_str());
        self.push(" wp_posts.");
        self.push(column.as_str());
        self.push(" ");
        self.push(operator);
        self.push_bound(" ?", value);
        proof {
            let target = old(self)@.with(bound(date_bound_text(*q, operator@), value@));
            assert(self@.text =~= target.text);
            assert(self@.values =~= target.values);
        }
    }

    /// Appends one date filter.
    fn push_date_test(&mut self, q: &DateQuery)
        ensures
            final(self)@ == old(self)@.with(date_test(*q)),
    {
        let ghost start = self@;
        let ghost exact = exact_date_test(*q);
        let ghost lower = after_test(*q);
        let ghost upper = before_test(*q);
        if q.year.is_some() && q.month.is_some() && q.day.is_some() {
            let column = q.column.to_string();
            self.push(" AND wp_posts.");
            self.push(column.as_str());
            self.push_bound(" = ?", q.to_value());
            proof {
                assert(self@.text =~= start.with(exact).text);
                assert(self@.values =~= start.with(exact).values);
            }
        } else {
            self.push_nothing();
        }
        match &q.after {
            Some(after) => {
                let d_op = if q.inclusive {
                    ">="
                } else {
                    ">"
                };
                self.push_date_bound(q, d_op, after.to_value());
            },
            None => self.push_nothing(),
        }
        proof {
            lemma_with_is_associative(start, exact, lower);
        }
        match &q.before {
            Some(before) => {
                let d_op = if q.inclusive {
                    "<="
                } else {
                    "<"
                };
                self.push_date_bound(q, d_op, before.to_value());
            },
            None => self.push_nothing(),
        }
        proof {
            lemma_with_is_associative(start, exact.with(lower), upper);
        }
    }

    /// Appends the filters on dates.
    fn push_dates(&mut self, p: &Params)
        ensures
            final(self)@ == old(self)@.with(date_clause(*p)),
    {
        let ghost start = self@;
        if has_valid_single_date(p) {
            self.push_bound(
                " AND wp_posts.post_date = ?",
                date_value(p.year, p.monthnum, p.day, p.hour, p.minute, p.second),
            );
        } else {
            self.push_nothing();
        }
        let ghost middle = self@;
        self.push_nothing();
        if let Some(queries) = &p.date_query {
            let mut i: usize = 0;
            while i < queries.len()
                invariant
                    i <= queries@.len(),
                    self@ == middle.with(date_tests(queries@.take(i as int))),
                decreases queries@.len() - i,
            {
                self.push_date_test(&queries[i]);
                proof {
                    let done = queries@.take(i as int);
                    let more = queries@.take(i + 1);
                    assert(more.drop_last() =~= done);
                    lemma_with_is_associative(
                        middle,
                        date_tests(done),
                        date_test(queries@[i as int]),
                    );
                }
                i = i + 1;
            }
            proof {
                assert(queries@.take(i as int) =~= queries@);
            }
        }
        proof {
            lemma_with_is_associative(start, single_date_clause(*p), date_queries_clause(*p));
        }
    }

    /// Appends one part of the single custom-field filter.
    fn push_single_meta(&mut self, column: &str, operator: &str, value: SqlValue)
        ensures
            final(self)@ == old(self)@.with(bound(column@ + operator@ + " ?"@, value@)),
    {
        self.push(column);
        self.push(operator);
        self.push_bound(" ?", value);
        proof {
            let target = old(self)@.with(bound(column@ + operator@ + " ?"@, value@));
            assert(self@.text =~= target.text);
            assert(self@.values =~= target.values);
        }
    }

    /// Appends one custom-field clause.
    fn push_meta_test(&mut self, q: &MetaQuery)
        ensures
            final(self)@ == old(self)@.with(meta_test(*q)),
    {
        let op = q.compare.to_string();
        match q.compare {
            SqlSearchOperators::Exists | SqlSearchOperators::NotExists => {
                self.push(" ");
                self.push(op.as_str());
                self.push_bound(
                    " (SELECT * FROM wp_postmeta WHERE meta_key = ? AND wp_postmeta.post_id = wp_posts.ID)",
                    SqlValue::from_text(q.key.as_str()),
                );
            },
            _ => {
                self.push(" (wp_postmeta.meta_value ");
                self.push(op.as_str());
                self.push(" ? AND wp_postmeta.meta_key ");
                self.push(op.as_str());
                self.push(" ?)");
                self.1.push(SqlValue::from_text(q.value.as_str()));
                self.1.push(SqlValue::from_text(q.key.as_str()));
            },
        }
        proof {
            let target = old(self)@.with(meta_test(*q));
            assert(self@.text =~= target.text);
            assert(self@.values =~= target.values);
        }
    }

    /// Appends the custom-field groups.
    fn push_meta_groups(&mut self, map: &MetaQueryMap)
        ensures
            final(self)@ == old(self)@.with(meta_groups(map@)),
    {
        self.push_groups(map.groups());
        proof {
            let ours = keyed::<MetaRelation, MetaQuery>(map@);
            assert forall|i: int| 0 <= i < ours.len() implies ours[i] == meta_keyed(map@)[i] by {
                assert(ours[i].1 =~= meta_clauses(map@[i].1));
            }
            assert(ours =~= meta_keyed(map@));
        }
    }

    /// Appends the filters on custom fields.
    fn push_meta(&mut self, p: &Params)
        ensures
            final(self)@ == old(self)@.with(meta_clause(*p)),
    {
        let ghost start = self@;
        let ghost by_key = meta_key_clause(*p);
        let ghost by_value = meta_value_clause(*p);
        let ghost by_number = meta_number_clause(*p);
        let ghost groups = meta_query_clause(*p);
        let meta_op = match p.meta_compare {
            Some(compare) => compare.to_string(),
            None => SqlSearchOperators::Equals.to_string(),
        };
        match p.meta_key {
            Some(meta_k) => self.push_single_meta(
                " AND wp_postmeta.meta_key ",
                meta_op.as_str(),
                SqlValue::from_text(meta_k),
            ),
            None => self.push_nothing(),
        }
        match &p.meta_value {
            Some(meta_v) => self.push_single_meta(
                " AND wp_postmeta.meta_value ",
                meta_op.as_str(),
                SqlValue::from_text(meta_v.as_str()),
            ),
            None => self.push_nothing(),
        }
        proof {
            lemma_with_is_associative(start, by_key, by_value);
        }
        match p.meta_value_num {
            Some(meta_v) => self.push_single_meta(
                " AND wp_postmeta.meta_value ",
                meta_op.as_str(),
                SqlValue::Int(meta_v),
            ),
            None => self.push_nothing(),
        }
        proof {
            lemma_with_is_associative(start, by_key.with(by_value), by_number);
        }
        match &p.meta_query {
            Some(map) => self.push_meta_groups(map),
            None => self.push_nothing(),
        }
        proof {
            lemma_with_is_associative(start, single_meta_clause(*p), groups);
        }
    }

    /// Appends the ordering.
    fn push_order(&mut self, p: &Params)
        ensures
            final(self)@ == old(self)@.with(order_clause(*p)),
    {
        match p.orderby {
            Some(orderby) => {
                let order = match p.order {
                    Some(order) => order.to_string(),
                    None => SqlOrder::Desc.to_string(),
                };
                self.push(" ORDER BY ");
                self.push(orderby.val());
                self.push(" ");
                self.push(order.as_str());
                proof {
                    let target = old(self)@.with(order_clause(*p));
                    assert(self@.text =~= target.text);
                    assert(self@.values =~= target.values);
                }
            },
            None => self.push_nothing(),
        }
    }

    /// Appends the limit and, where a page is asked for, the offset.
    fn push_page(&mut self, p: &Params)
        requires
            page_is_addressable(*p),
        ensures
            final(self)@ == old(self)@.with(page_clause(*p)),
    {
        let size: u64 = match p.posts_per_page {
            Some(n) => n,
            None => 10,
        };
        match p.page {
            Some(page) => {
                let (limit, offset) = limit_and_offset(page as usize, size as usize);
                self.0.append(" LIMIT ? OFFSET ?;");
                self.1.push(SqlValue::UInt(limit as u64));
                self.1.push(SqlValue::UInt(offset as u64));
                proof {
                    let target = old(self)@.with(page_clause(*p));
                    assert(self@.values =~= target.values);
                }
            },
            None => self.push_bound(" LIMIT ?;", SqlValue::UInt(size)),
        }
    }
}

impl<'a> QueryBuilder<'a> {
    #[verifier::type_invariant]
    spec fn nothing_written(self) -> bool {
        self.query@.len() == 0 && self.values@.len() == 0
    }

    /// The description this builder writes the statement for.
    pub closed spec fn params(self) -> Params<'a> {
        self.params
    }

    pub fn new(params: Params<'a>) -> (r: Self)
        ensures
            r.params() == params,
    {
        Self { params, query: String::new(), values: Vec::new() }
    }

    /// Writes the statement: the selected columns and the joins the filters
    /// need, then one clause for each filter present, always in the same
    /// order, then ordering and limit. Every placeholder has its value, at
    /// the same position in the list of values.
    pub fn query(self) -> (out: QueryAndValues)
        requires
            page_is_addressable(self.params()),
        ensures
            out@ == statement(self.params()),
            placeholder_count(out.0@) == out.1@.len(),
    {
        proof {
            use_type_invariant(&self);
        }
        let QueryBuilder { params, query, values } = self;
        let mut out = QueryAndValues(query, values);
        assert(out@.text =~= nothing().text);
        assert(out@.values =~= nothing().values);
        out.push(
            "SELECT DISTINCT(wp_posts.ID),post_author,comment_count,post_parent,menu_order,
            post_date,post_date_gmt,post_modified,post_modified_gmt,
            post_status,post_content,post_title,post_excerpt,comment_status,ping_status,
            post_password,post_name,to_ping,pinged,post_content_filtered,guid,
            post_type,post_mime_type
            FROM wp_posts",
        );
        proof {
            lemma_with_nothing(select_clause());
        }
        out.push_joins(&params);
        // Keeps every later filter free to start with `AND`.
        out.push(" WHERE 1 = 1");
        out.push_author(&params);
        out.push_status(&params);
        out.push_terms(&params);
        out.push_tax_query(&params);
        out.push_search(&params);
        out.push_post(&params);
        out.push_dates(&params);
        out.push_meta(&params);
        out.push_order(&params);
        out.push_page(&params);
        proof {
            lemma_statement_is_balanced(params);
        }
        out
    }

    /// Writes the statement where the page asked for can be addressed, and
    /// nothing where it cannot.
    pub fn checked_query(self) -> (r: Option<QueryAndValues>)
        ensures
            r is Some <==> page_is_addressable(self.params()),
            r is Some ==> r->0@ == statement(self.params()) && r->0@.is_balanced(),
    {
        if page_fits(&self.params) {
            Some(self.query())
        } else {
            None
        }
    }
}

} // verus!
