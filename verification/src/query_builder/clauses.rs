//! What each part of a statement says: its text and the values it binds.
//!
//! A statement is put together from clauses in a fixed order. The order of
//! the clauses is the order of their placeholders, and so the order of the
//! bound values.

use vstd::prelude::*;

use crate::params::date_query::{date_of_parts, DateQuery};
use crate::params::meta_query::{MetaQuery, MetaRelation};
use crate::params::post_type::PostType;
use crate::params::tax_query::{TaxQuery, TaxRelation};
use crate::params::Params;
use crate::sql::{SqlOrder, SqlSearchOperators};
use crate::text::{placeholder_count, question_marks};
use crate::value::{id_values, string_values, text_value, text_values, SqlValueView};
use crate::wp_post::post_status::PostStatus;

verus! {

/// A piece of statement text with the values bound to its placeholders.
pub struct Clause {
    pub text: Seq<char>,
    pub values: Seq<SqlValueView>,
}

impl Clause {
    /// This clause followed by another.
    pub open spec fn with(self, next: Clause) -> Clause {
        Clause { text: self.text + next.text, values: self.values + next.values }
    }

    /// Whether the clause binds one value for each of its placeholders.
    pub open spec fn is_balanced(self) -> bool {
        placeholder_count(self.text) == self.values.len()
    }
}

/// Clauses can be put together in any grouping.
pub proof fn lemma_with_is_associative(a: Clause, b: Clause, c: Clause)
    ensures
        a.with(b).with(c) == a.with(b.with(c)),
{
    assert(a.with(b).with(c).text =~= a.with(b.with(c)).text);
    assert(a.with(b).with(c).values =~= a.with(b.with(c)).values);
}

/// The empty clause adds nothing on either side.
pub proof fn lemma_with_nothing(a: Clause)
    ensures
        a.with(nothing()) == a,
        nothing().with(a) == a,
{
    assert(a.with(nothing()).text =~= a.text);
    assert(a.with(nothing()).values =~= a.values);
    assert(nothing().with(a).text =~= a.text);
    assert(nothing().with(a).values =~= a.values);
}

/// The clause that says nothing.
pub open spec fn nothing() -> Clause {
    Clause { text: Seq::empty(), values: Seq::empty() }
}

/// Fixed text that binds no value.
pub open spec fn fixed(text: Seq<char>) -> Clause {
    Clause { text, values: Seq::empty() }
}

/// Text that binds one value.
pub open spec fn bound(text: Seq<char>, value: SqlValueView) -> Clause {
    Clause { text, values: seq![value] }
}

/// `opening`, one placeholder for each value, and a closing bracket.
pub open spec fn list_clause(opening: Seq<char>, values: Seq<SqlValueView>) -> Clause {
    Clause { text: opening + question_marks(values.len()) + ")"@, values }
}

/// A test of a column against a list of ids; nothing where there is no list.
pub open spec fn id_list_clause(opening: Seq<char>, ids: Option<Vec<u64>>) -> Clause {
    match ids {
        Some(ids) => list_clause(opening, id_values(ids@)),
        None => nothing(),
    }
}

/// A test of a column against a list of texts; nothing where there is no
/// list.
pub open spec fn text_list_clause(opening: Seq<char>, texts: Option<Vec<&str>>) -> Clause {
    match texts {
        Some(texts) => list_clause(opening, text_values(texts@)),
        None => nothing(),
    }
}

/// A test of a column against one id; nothing where there is no id.
pub open spec fn id_clause(text: Seq<char>, id: Option<u64>) -> Clause {
    match id {
        Some(id) => bound(text, SqlValueView::UInt(id)),
        None => nothing(),
    }
}

/// A test of a column against one text; nothing where there is no text.
pub open spec fn text_clause(text: Seq<char>, value: Option<&str>) -> Clause {
    match value {
        Some(value) => bound(text, text_value(value@)),
        None => nothing(),
    }
}

/// The columns selected and the table they come from.
pub open spec fn select_clause() -> Clause {
    fixed(
        "SELECT DISTINCT(wp_posts.ID),post_author,comment_count,post_parent,menu_order,
            post_date,post_date_gmt,post_modified,post_modified_gmt,
            post_status,post_content,post_title,post_excerpt,comment_status,ping_status,
            post_password,post_name,to_ping,pinged,post_content_filtered,guid,
            post_type,post_mime_type
            FROM wp_posts"@,
    )
}

/// Whether the terms tables must be joined: some filter on terms is present.
pub open spec fn needs_term_join(p: Params) -> bool {
    p.term_and is Some || p.term_in is Some || p.term_not_in is Some || p.term_slug_and is Some
        || p.term_slug_in is Some || p.tax_query is Some
}

/// Whether the custom-field table must be joined: some filter on custom
/// fields is present.
pub open spec fn needs_meta_join(p: Params) -> bool {
    p.meta_key is Some || p.meta_value is Some || p.meta_value_num is Some || p.meta_query is Some
}

/// Whether the users table must be joined: the author is asked for by name.
pub open spec fn needs_user_join(p: Params) -> bool {
    p.author_name is Some
}

/// The join of the custom-field table.
pub open spec fn meta_join() -> Clause {
    fixed(" INNER JOIN wp_postmeta ON wp_postmeta.post_id = wp_posts.ID"@)
}

/// The join of the three terms tables.
pub open spec fn term_join() -> Clause {
    fixed(
        " INNER JOIN wp_term_relationships
            ON wp_posts.ID = wp_term_relationships.object_id
            INNER JOIN wp_term_taxonomy ON wp_term_taxonomy.term_taxonomy_id = wp_term_relationships.term_taxonomy_id
            INNER JOIN wp_terms ON wp_terms.term_id = wp_term_taxonomy.term_id"@,
    )
}

/// The join of the users table.
pub open spec fn user_join() -> Clause {
    fixed(" INNER JOIN wp_users ON wp_users.ID = wp_posts.post_author"@)
}

/// The joins a description needs, custom fields first, then terms, then
/// users, and no other.
pub open spec fn joins_clause(p: Params) -> Clause {
    (if needs_meta_join(p) {
        meta_join()
    } else {
        nothing()
    }).with(
        if needs_term_join(p) {
            term_join()
        } else {
            nothing()
        },
    ).with(
        if needs_user_join(p) {
            user_join()
        } else {
            nothing()
        },
    )
}

/// The condition that is always true, so that every filter can start with
/// `AND`.
pub open spec fn where_clause() -> Clause {
    fixed(" WHERE 1 = 1"@)
}

/// The filters on the author: id, name, admitted ids, excluded ids.
pub open spec fn author_clause(p: Params) -> Clause {
    id_clause(" AND post_author = ?"@, p.author).with(
        text_clause(" AND wp_users.user_nicename = ?"@, p.author_name),
    ).with(id_list_clause(" AND post_author IN ("@, p.author__in)).with(
        id_list_clause(" AND post_author NOT IN ("@, p.author__not_in),
    )
}

/// The status a description selects where it names none.
pub open spec fn default_status() -> PostStatus {
    PostStatus::Publish
}

/// The filter on the status: published posts where none is named, no filter
/// for `Any`.
pub open spec fn status_clause(p: Params) -> Clause {
    match p.post_status {
        None => bound(" AND post_status = ?"@, text_value(default_status().text())),
        Some(PostStatus::Any) => nothing(),
        Some(status) => bound(" AND post_status = ?"@, text_value(status.text())),
    }
}

/// One test for each slug a post's terms must have.
pub open spec fn slug_tests(slugs: Seq<&str>) -> Clause
    decreases slugs.len(),
{
    if slugs.len() == 0 {
        nothing()
    } else {
        slug_tests(slugs.drop_last()).with(
            bound(" AND wp_terms.slug = ?"@, text_value(slugs.last()@)),
        )
    }
}

/// The tests for the slugs a post's terms must have.
pub open spec fn required_slugs_clause(p: Params) -> Clause {
    match p.term_slug_and {
        Some(slugs) => slug_tests(slugs@),
        None => nothing(),
    }
}

/// The filters on terms: required slugs, admitted slugs, admitted ids,
/// excluded ids.
pub open spec fn term_clause(p: Params) -> Clause {
    required_slugs_clause(p).with(text_list_clause(" AND wp_terms.slug IN ("@, p.term_slug_in)).with(
        id_list_clause(" AND wp_terms.term_id IN ("@, p.term_in),
    ).with(id_list_clause(" AND wp_terms.term_id NOT IN ("@, p.term_not_in))
}

/// One taxonomy clause: the column, the operator, and a placeholder for each
/// term.
pub open spec fn tax_test(q: TaxQuery) -> Clause {
    Clause {
        text: " wp_"@ + q.field.text() + " "@ + q.operator.text() + " ("@ + question_marks(
            q.terms@.len(),
        ) + ")"@,
        values: string_values(q.terms@),
    }
}

/// The clauses of one group, each after the first preceded by the keyword
/// of the group's relation. No brackets are put round them.
pub open spec fn joined_tests(keyword: Seq<char>, tests: Seq<Clause>) -> Clause
    decreases tests.len(),
{
    if tests.len() == 0 {
        nothing()
    } else {
        joined_tests(keyword, tests.drop_last()).with(
            if tests.len() > 1 {
                fixed(" "@ + keyword)
            } else {
                nothing()
            },
        ).with(tests.last())
    }
}

/// Groups of clauses, each group introduced by `AND` and given as the
/// keyword of its relation and its clauses.
pub open spec fn joined_groups(groups: Seq<(Seq<char>, Seq<Clause>)>) -> Clause
    decreases groups.len(),
{
    if groups.len() == 0 {
        nothing()
    } else {
        joined_groups(groups.drop_last()).with(fixed(" AND"@)).with(
            joined_tests(groups.last().0, groups.last().1),
        )
    }
}

/// Taxonomy clauses as they are written, one for one.
pub open spec fn tax_clauses(queries: Seq<TaxQuery>) -> Seq<Clause> {
    Seq::new(queries.len(), |i: int| tax_test(queries[i]))
}

/// The clauses of one taxonomy group, each after the first preceded by the
/// group's relation. No brackets are put round them.
pub open spec fn tax_tests(relation: TaxRelation, queries: Seq<TaxQuery>) -> Clause {
    joined_tests(relation.text(), tax_clauses(queries))
}

/// Taxonomy groups as keyword and written clauses, one for one.
pub open spec fn tax_keyed(groups: Seq<(TaxRelation, Seq<TaxQuery>)>) -> Seq<
    (Seq<char>, Seq<Clause>),
> {
    Seq::new(groups.len(), |i: int| (groups[i].0.text(), tax_clauses(groups[i].1)))
}

/// The taxonomy groups, each introduced by `AND`.
pub open spec fn tax_groups(groups: Seq<(TaxRelation, Seq<TaxQuery>)>) -> Clause {
    joined_groups(tax_keyed(groups))
}

/// The filter by taxonomy clauses.
pub open spec fn tax_query_clause(p: Params) -> Clause {
    match p.tax_query {
        Some(map) => tax_groups(map@),
        None => nothing(),
    }
}

/// The search for a keyword in content or title. The keyword is bound
/// twice.
pub open spec fn search_clause(p: Params) -> Clause {
    match p.s {
        Some(keyword) => Clause {
            text: " AND wp_posts.post_content LIKE CONCAT('%',?,'%') OR wp_posts.post_title LIKE CONCAT('%',?,'%')"@,
            values: seq![text_value(keyword@), text_value(keyword@)],
        },
        None => nothing(),
    }
}

/// The values that bind a list of post types, in order.
pub open spec fn post_type_values(types: Seq<PostType>) -> Seq<SqlValueView> {
    Seq::new(types.len(), |i: int| text_value(types[i].text()))
}

/// The filter on the type: `post` where no list is given, no filter for an
/// empty list, the listed types otherwise.
pub open spec fn post_type_clause(p: Params) -> Clause {
    match p.post_type {
        None => fixed(" AND wp_posts.post_type = 'post'"@),
        Some(types) => if types@.len() == 0 {
            nothing()
        } else {
            list_clause(" AND wp_posts.post_type IN ("@, post_type_values(types@))
        },
    }
}

/// The filters on the post itself: id, slug, type, parent, admitted and
/// excluded parents, admitted and excluded ids, admitted slugs.
pub open spec fn post_clause(p: Params) -> Clause {
    id_clause(" AND wp_posts.ID = ?"@, p.p).with(
        text_clause(" AND wp_posts.post_name = ?"@, p.name),
    ).with(post_type_clause(p)).with(id_clause(" AND wp_posts.post_parent = ?"@, p.post_parent)).with(
        id_list_clause(" AND wp_posts.post_parent IN ("@, p.post_parent__in),
    ).with(id_list_clause(" AND wp_posts.post_parent NOT IN ("@, p.post_parent__not_in)).with(
        id_list_clause(" AND wp_posts.ID IN ("@, p.post__in),
    ).with(id_list_clause(" AND wp_posts.ID NOT IN ("@, p.post__not_in)).with(
        text_list_clause(" AND wp_posts.post_name IN ("@, p.post_name__in),
    )
}

/// Whether year, month and day are all given, so that the description asks
/// for one exact moment.
pub open spec fn has_single_date(p: Params) -> bool {
    p.year is Some && p.monthnum is Some && p.day is Some
}

/// The test for one exact moment of the post date.
pub open spec fn single_date_clause(p: Params) -> Clause {
    if has_single_date(p) {
        bound(
            " AND wp_posts.post_date = ?"@,
            date_of_parts(p.year, p.monthnum, p.day, p.hour, p.minute, p.second),
        )
    } else {
        nothing()
    }
}

/// The comparison that keeps what lies after a bound.
pub open spec fn after_operator(inclusive: bool) -> Seq<char> {
    if inclusive {
        ">="@
    } else {
        ">"@
    }
}

/// The comparison that keeps what lies before a bound.
pub open spec fn before_operator(inclusive: bool) -> Seq<char> {
    if inclusive {
        "<="@
    } else {
        "<"@
    }
}

/// The test of a date column against one bound of a range.
pub open spec fn date_bound_text(q: DateQuery, operator: Seq<char>) -> Seq<char> {
    " "@ + q.relation.text() + " wp_posts."@ + q.column.text() + " "@ + operator + " ?"@
}

/// The test for the exact moment of a date filter, where year, month and day
/// are given.
pub open spec fn exact_date_test(q: DateQuery) -> Clause {
    if q.has_exact_date() {
        bound(" AND wp_posts."@ + q.column.text() + " = ?"@, q.value())
    } else {
        nothing()
    }
}

/// The test against the lower bound of a date filter.
pub open spec fn after_test(q: DateQuery) -> Clause {
    match q.after {
        Some(after) => bound(date_bound_text(q, after_operator(q.inclusive)), after.value()),
        None => nothing(),
    }
}

/// The test against the upper bound of a date filter.
pub open spec fn before_test(q: DateQuery) -> Clause {
    match q.before {
        Some(before) => bound(date_bound_text(q, before_operator(q.inclusive)), before.value()),
        None => nothing(),
    }
}

/// One date filter: the exact moment, then the lower bound, then the upper
/// bound.
pub open spec fn date_test(q: DateQuery) -> Clause {
    exact_date_test(q).with(after_test(q)).with(before_test(q))
}

/// The date filters, in order.
pub open spec fn date_tests(queries: Seq<DateQuery>) -> Clause
    decreases queries.len(),
{
    if queries.len() == 0 {
        nothing()
    } else {
        date_tests(queries.drop_last()).with(date_test(queries.last()))
    }
}

/// The date filters of a description.
pub open spec fn date_queries_clause(p: Params) -> Clause {
    match p.date_query {
        Some(queries) => date_tests(queries@),
        None => nothing(),
    }
}

/// The filters on dates: the exact moment, then the date filters.
pub open spec fn date_clause(p: Params) -> Clause {
    single_date_clause(p).with(date_queries_clause(p))
}

/// The comparison of the single custom-field filter: equality where none is
/// named.
pub open spec fn meta_operator(p: Params) -> SqlSearchOperators {
    match p.meta_compare {
        Some(compare) => compare,
        None => SqlSearchOperators::Equals,
    }
}

/// The test of the single custom-field key.
pub open spec fn meta_key_clause(p: Params) -> Clause {
    match p.meta_key {
        Some(key) => bound(
            " AND wp_postmeta.meta_key "@ + meta_operator(p).text() + " ?"@,
            text_value(key@),
        ),
        None => nothing(),
    }
}

/// The test of the single custom-field value, as text.
pub open spec fn meta_value_clause(p: Params) -> Clause {
    match p.meta_value {
        Some(value) => bound(
            " AND wp_postmeta.meta_value "@ + meta_operator(p).text() + " ?"@,
            text_value(value@),
        ),
        None => nothing(),
    }
}

/// The test of the single custom-field value, as a number.
pub open spec fn meta_number_clause(p: Params) -> Clause {
    match p.meta_value_num {
        Some(n) => bound(
            " AND wp_postmeta.meta_value "@ + meta_operator(p).text() + " ?"@,
            SqlValueView::Int(n),
        ),
        None => nothing(),
    }
}

/// The single custom-field filter: key, text value, numeric value.
pub open spec fn single_meta_clause(p: Params) -> Clause {
    meta_key_clause(p).with(meta_value_clause(p)).with(meta_number_clause(p))
}

/// One custom-field clause. A test for presence looks the key up in a
/// subquery tied to the post and binds the key alone; a comparison binds the
/// value, then the key.
pub open spec fn meta_test(q: MetaQuery) -> Clause {
    if q.compare.is_existence_test() {
        bound(
            " "@ + q.compare.text()
                + " (SELECT * FROM wp_postmeta WHERE meta_key = ? AND wp_postmeta.post_id = wp_posts.ID)"@,
            text_value(q.key@),
        )
    } else {
        Clause {
            text: " (wp_postmeta.meta_value "@ + q.compare.text()
                + " ? AND wp_postmeta.meta_key "@ + q.compare.text() + " ?)"@,
            values: seq![text_value(q.value@), text_value(q.key@)],
        }
    }
}

/// Custom-field clauses as they are written, one for one.
pub open spec fn meta_clauses(queries: Seq<MetaQuery>) -> Seq<Clause> {
    Seq::new(queries.len(), |i: int| meta_test(queries[i]))
}

/// The clauses of one custom-field group, each after the first preceded by
/// the group's relation. No brackets are put round them.
pub open spec fn meta_tests(relation: MetaRelation, queries: Seq<MetaQuery>) -> Clause {
    joined_tests(relation.text(), meta_clauses(queries))
}

/// Custom-field groups as keyword and written clauses, one for one.
pub open spec fn meta_keyed(groups: Seq<(MetaRelation, Seq<MetaQuery>)>) -> Seq<
    (Seq<char>, Seq<Clause>),
> {
    Seq::new(groups.len(), |i: int| (groups[i].0.text(), meta_clauses(groups[i].1)))
}

/// The custom-field groups, each introduced by `AND`.
pub open spec fn meta_groups(groups: Seq<(MetaRelation, Seq<MetaQuery>)>) -> Clause {
    joined_groups(meta_keyed(groups))
}

/// The custom-field groups of a description.
pub open spec fn meta_query_clause(p: Params) -> Clause {
    match p.meta_query {
        Some(map) => meta_groups(map@),
        None => nothing(),
    }
}

/// The filters on custom fields: the single filter, then the groups.
pub open spec fn meta_clause(p: Params) -> Clause {
    single_meta_clause(p).with(meta_query_clause(p))
}

/// The sort direction: descending where none is named.
pub open spec fn sort_direction(p: Params) -> SqlOrder {
    match p.order {
        Some(order) => order,
        None => SqlOrder::Desc,
    }
}

/// The ordering; nothing where no column is named.
pub open spec fn order_clause(p: Params) -> Clause {
    match p.orderby {
        Some(orderby) => fixed(" ORDER BY "@ + orderby.text() + " "@ + sort_direction(p).text()),
        None => nothing(),
    }
}

/// The page size: 10 where none is named.
pub open spec fn page_size(p: Params) -> u64 {
    match p.posts_per_page {
        Some(n) => n,
        None => 10,
    }
}

/// The number of rows that stand before a page.
pub open spec fn page_offset(page: u64, size: u64) -> int {
    page * size
}

/// Whether the page asked for can be addressed: its size, its index and its
/// offset fit the machine's word.
pub open spec fn page_is_addressable(p: Params) -> bool {
    p.page is Some ==> p.page->0 <= usize::MAX && page_size(p) <= usize::MAX && page_offset(
        p.page->0,
        page_size(p),
    ) <= usize::MAX
}

/// The limit, and the offset where a page is asked for. The statement ends
/// here.
pub open spec fn page_clause(p: Params) -> Clause {
    match p.page {
        Some(page) => Clause {
            text: " LIMIT ? OFFSET ?;"@,
            values: seq![
                SqlValueView::UInt(page_size(p)),
                SqlValueView::UInt(page_offset(page, page_size(p)) as u64),
            ],
        },
        None => bound(" LIMIT ?;"@, SqlValueView::UInt(page_size(p))),
    }
}

/// The whole statement for a description of posts.
pub open spec fn statement(p: Params) -> Clause {
    select_clause().with(joins_clause(p)).with(where_clause()).with(author_clause(p)).with(
        status_clause(p),
    ).with(term_clause(p)).with(tax_query_clause(p)).with(search_clause(p)).with(
        post_clause(p),
    ).with(date_clause(p)).with(meta_clause(p)).with(order_clause(p)).with(page_clause(p))
}

} // verus!
