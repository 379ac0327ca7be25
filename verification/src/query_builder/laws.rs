//! What holds of every statement, beyond the count of its placeholders.

use vstd::prelude::*;

use crate::params::meta_query::MetaQuery;
use crate::params::tax_query::{TaxQuery, TaxRelation};
use crate::params::Params;
use crate::query_builder::clauses::{
    bound, fixed, joined_groups, joined_tests, joins_clause, lemma_with_nothing, meta_join,
    meta_test, needs_meta_join, needs_term_join, needs_user_join, nothing, page_clause,
    page_offset, page_size, post_type_clause, post_type_values, select_clause, statement,
    status_clause, tax_clauses, tax_groups, tax_keyed, tax_test, tax_tests, where_clause, Clause,
};
use crate::text::question_marks;
use crate::value::{string_values, text_value, SqlValueView};
use crate::wp_post::post_status::PostStatus;

verus! {

/// A description that names no status selects published posts, by a filter
/// bound to `publish`; one that names `Any` has no filter on the status.
pub proof fn lemma_default_status(p: Params)
    ensures
        p.post_status is None ==> status_clause(p) == bound(
            " AND post_status = ?"@,
            text_value("publish"@),
        ),
        p.post_status == Some(PostStatus::Any) ==> status_clause(p) == nothing(),
        p.post_status is Some && p.post_status != Some(PostStatus::Any) ==> status_clause(p)
            == bound(" AND post_status = ?"@, text_value(p.post_status->0.text())),
{
}

/// A description without a list of types selects the type `post` by fixed
/// text; an empty list has no filter on the type; a list of two types has
/// two placeholders, bound to the two types in the order given.
pub proof fn lemma_default_type(p: Params)
    ensures
        p.post_type is None ==> post_type_clause(p) == fixed(" AND wp_posts.post_type = 'post'"@),
        p.post_type is Some && p.post_type->0@.len() == 0 ==> post_type_clause(p) == nothing(),
        p.post_type is Some && p.post_type->0@.len() == 2 ==> post_type_clause(p) == (Clause {
            text: " AND wp_posts.post_type IN ("@ + "?,?"@ + ")"@,
            values: seq![
                text_value(p.post_type->0@[0].text()),
                text_value(p.post_type->0@[1].text()),
            ],
        }),
{
    if p.post_type is Some && p.post_type->0@.len() == 2 {
        let types = p.post_type->0@;
        reveal_strlit("?,?");
        reveal_with_fuel(question_marks, 3);
        assert(question_marks(2) =~= "?,?"@);
        assert(post_type_values(types) =~= seq![
            text_value(types[0].text()),
            text_value(types[1].text()),
        ]);
    }
}

/// A statement joins no table that its filters do not need: without filters
/// on terms, custom fields or the author's name there is no join at all, so
/// that `WHERE 1 = 1` follows `FROM wp_posts` directly; and a filter on
/// custom fields alone joins the custom-field table and no other.
pub proof fn lemma_joins_are_minimal(p: Params)
    ensures
        !needs_meta_join(p) && !needs_term_join(p) && !needs_user_join(p) ==> joins_clause(p)
            == nothing() && (select_clause().text + where_clause().text).is_prefix_of(
            statement(p).text,
        ),
        needs_meta_join(p) && !needs_term_join(p) && !needs_user_join(p) ==> joins_clause(p)
            == meta_join() && (select_clause().text + meta_join().text
            + where_clause().text).is_prefix_of(statement(p).text),
{
    lemma_with_nothing(nothing());
    lemma_with_nothing(meta_join());
    let head = select_clause().with(joins_clause(p)).with(where_clause());
    assert(head.text =~= select_clause().text + joins_clause(p).text + where_clause().text);
    assert(head.text.is_prefix_of(statement(p).text)) by {
        let whole = statement(p).text;
        assert(whole.subrange(0, head.text.len() as int) =~= head.text);
    }
    if !needs_meta_join(p) && !needs_term_join(p) && !needs_user_join(p) {
        assert(head.text =~= select_clause().text + where_clause().text);
    }
}

/// The limit is the page size, 10 where none is named. Without a page there
/// is no offset; with one, the offset is the product of page index and page
/// size.
pub proof fn lemma_pagination(p: Params)
    ensures
        p.posts_per_page is None ==> page_size(p) == 10,
        p.posts_per_page is Some ==> page_size(p) == p.posts_per_page->0,
        p.page is None ==> page_clause(p) == bound(
            " LIMIT ?;"@,
            SqlValueView::UInt(page_size(p)),
        ),
        p.page is Some ==> page_clause(p).text == " LIMIT ? OFFSET ?;"@ && page_clause(p).values
            == seq![
            SqlValueView::UInt(page_size(p)),
            SqlValueView::UInt((p.page->0 * page_size(p)) as u64),
        ],
        page_offset(0, 10) == 0,
        page_offset(2, 20) == 40,
{
}

/// A group of three clauses is written as its three clauses in the order
/// given, with the group's relation before the second and the third, and one
/// `AND` before the group.
pub proof fn lemma_group_of_three(relation: TaxRelation, a: TaxQuery, b: TaxQuery, c: TaxQuery)
    ensures
        tax_tests(relation, seq![a, b, c]) == tax_test(a).with(fixed(" "@ + relation.text())).with(
            tax_test(b),
        ).with(fixed(" "@ + relation.text())).with(tax_test(c)),
        tax_groups(seq![(relation, seq![a, b, c])]) == fixed(" AND"@).with(
            tax_tests(relation, seq![a, b, c]),
        ),
        tax_tests(relation, seq![a, b, c]).values == string_values(a.terms@) + string_values(
            b.terms@,
        ) + string_values(c.terms@),
{
    let key = relation.text();
    let three = seq![tax_test(a), tax_test(b), tax_test(c)];
    let two = seq![tax_test(a), tax_test(b)];
    let one = seq![tax_test(a)];
    assert(tax_clauses(seq![a, b, c]) =~= three);
    assert(three.drop_last() =~= two);
    assert(two.drop_last() =~= one);
    assert(one.drop_last() =~= Seq::<Clause>::empty());
    reveal_with_fuel(joined_tests, 4);
    lemma_with_nothing(tax_test(a));
    lemma_with_nothing(nothing());
    assert(joined_tests(key, one) == tax_test(a));
    let groups = tax_keyed(seq![(relation, seq![a, b, c])]);
    assert(groups =~= seq![(key, three)]);
    assert(groups.drop_last() =~= Seq::<(Seq<char>, Seq<Clause>)>::empty());
    reveal_with_fuel(joined_groups, 2);
    lemma_with_nothing(fixed(" AND"@));
    assert(joined_tests(key, three).values =~= string_values(a.terms@) + string_values(
        b.terms@,
    ) + string_values(c.terms@));
}

/// A test for a key's presence binds the key and nothing else; a comparison
/// binds the value, then the key.
pub proof fn lemma_meta_test_values(q: MetaQuery)
    ensures
        q.compare.is_existence_test() ==> meta_test(q).values == seq![text_value(q.key@)],
        !q.compare.is_existence_test() ==> meta_test(q).values == seq![
            text_value(q.value@),
            text_value(q.key@),
        ],
{
}

} // verus!
