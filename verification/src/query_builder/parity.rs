//! Every statement binds one value for each of its placeholders.

use vstd::prelude::*;

use crate::params::date_query::{DateColumn, DateQuery};
use crate::params::meta_query::{MetaQuery, MetaRelation};
use crate::params::orderby::WpOrderBy;
use crate::params::tax_query::{TaxField, TaxQuery, TaxRelation};
use crate::params::Params;
use crate::query_builder::clauses::{
    after_operator, after_test, author_clause, before_operator, before_test, bound,
    date_bound_text, date_clause, date_queries_clause, date_test, date_tests, exact_date_test,
    fixed, id_clause, id_list_clause, joins_clause, list_clause, meta_clause, meta_groups,
    joined_groups, joined_tests, meta_keyed, tax_keyed, meta_key_clause, meta_number_clause,
    meta_operator, meta_query_clause, meta_test, meta_value_clause, nothing, order_clause,
    page_clause, post_clause, post_type_clause, required_slugs_clause, search_clause,
    select_clause, single_date_clause, single_meta_clause, slug_tests, sort_direction, statement,
    status_clause, tax_groups, tax_query_clause, tax_test, term_clause, text_clause,
    text_list_clause, where_clause, Clause,
};
use crate::sql::{SqlConditionOperator, SqlOrder, SqlSearchOperators};
use crate::text::{
    has_no_placeholder, lemma_concat_has_no_placeholder, lemma_ends_in_placeholder,
    lemma_no_placeholder, lemma_placeholder_count_concat, lemma_question_marks,
    lemma_two_placeholders, placeholder_count, question_marks,
};
use crate::value::SqlValueView;

verus! {

/// Two balanced clauses make a balanced clause.
pub proof fn lemma_with_is_balanced(a: Clause, b: Clause)
    requires
        a.is_balanced(),
        b.is_balanced(),
    ensures
        a.with(b).is_balanced(),
{
    lemma_placeholder_count_concat(a.text, b.text);
}

/// Text without a `?` that binds nothing is balanced.
pub proof fn lemma_fixed_is_balanced(text: Seq<char>)
    requires
        has_no_placeholder(text),
    ensures
        fixed(text).is_balanced(),
{
    lemma_no_placeholder(text);
}

/// Text that ends in its only `?` and binds one value is balanced.
pub proof fn lemma_bound_is_balanced(text: Seq<char>, value: SqlValueView)
    requires
        text.len() > 0,
        text.last() == '?',
        has_no_placeholder(text.drop_last()),
    ensures
        bound(text, value).is_balanced(),
{
    lemma_ends_in_placeholder(text);
}

/// A stem without a `?`, followed by ` ?` and bound to one value, is
/// balanced.
pub proof fn lemma_stem_bound_is_balanced(stem: Seq<char>, value: SqlValueView)
    requires
        has_no_placeholder(stem),
    ensures
        bound(stem + " ?"@, value).is_balanced(),
{
    reveal_strlit(" ?");
    let text = stem + " ?"@;
    assert(text.drop_last() =~= stem + seq![' ']);
    lemma_ends_in_placeholder(text);
}

/// A list of placeholders behind an opening without a `?` is balanced.
pub proof fn lemma_list_clause_is_balanced(opening: Seq<char>, values: Seq<SqlValueView>)
    requires
        has_no_placeholder(opening),
    ensures
        list_clause(opening, values).is_balanced(),
{
    reveal_strlit(")");
    lemma_question_marks(values.len());
    lemma_no_placeholder(opening);
    lemma_no_placeholder(")"@);
    lemma_placeholder_count_concat(opening, question_marks(values.len()));
    lemma_placeholder_count_concat(opening + question_marks(values.len()), ")"@);
}

/// No name of a column, operator, relation or direction holds a `?`.
pub proof fn lemma_names_have_no_placeholder()
    ensures
        forall|x: SqlConditionOperator| has_no_placeholder(#[trigger] x.text()),
        forall|x: SqlSearchOperators| has_no_placeholder(#[trigger] x.text()),
        forall|x: SqlOrder| has_no_placeholder(#[trigger] x.text()),
        forall|x: WpOrderBy| has_no_placeholder(#[trigger] x.text()),
        forall|x: TaxField| has_no_placeholder(#[trigger] x.text()),
        forall|x: TaxRelation| has_no_placeholder(#[trigger] x.text()),
        forall|x: MetaRelation| has_no_placeholder(#[trigger] x.text()),
        forall|x: DateColumn| has_no_placeholder(#[trigger] x.text()),
{
    reveal_strlit("AND");
    reveal_strlit("EXISTS");
    reveal_strlit("IN");
    reveal_strlit("NOT EXISTS");
    reveal_strlit("NOT IN");
    reveal_strlit("OR");
    reveal_strlit("=");
    reveal_strlit("!=");
    reveal_strlit(">");
    reveal_strlit("<");
    reveal_strlit(">=");
    reveal_strlit("<=");
    reveal_strlit("LIKE");
    reveal_strlit("NOT LIKE");
    reveal_strlit("ASC");
    reveal_strlit("DESC");
    reveal_strlit("");
    reveal_strlit("ID");
    reveal_strlit("post_author");
    reveal_strlit("post_title");
    reveal_strlit("post_name");
    reveal_strlit("post_type");
    reveal_strlit("post_date");
    reveal_strlit("post_date_gmt");
    reveal_strlit("post_modified");
    reveal_strlit("post_modified_gmt");
    reveal_strlit("post_parent");
    reveal_strlit("comment_count");
    reveal_strlit("meta_value");
    reveal_strlit("terms.name");
    reveal_strlit("terms.slug");
    reveal_strlit("terms.term_id");
    reveal_strlit("term_taxonomy.term_taxonomy_id");
}

/// The selected columns bind nothing.
pub proof fn lemma_select_is_balanced()
    ensures
        select_clause().is_balanced(),
{
    reveal_strlit(
        "SELECT DISTINCT(wp_posts.ID),post_author,comment_count,post_parent,menu_order,
            post_date,post_date_gmt,post_modified,post_modified_gmt,
            post_status,post_content,post_title,post_excerpt,comment_status,ping_status,
            post_password,post_name,to_ping,pinged,post_content_filtered,guid,
            post_type,post_mime_type
            FROM wp_posts",
    );
    lemma_fixed_is_balanced(select_clause().text);
}

/// The joins bind nothing.
pub proof fn lemma_joins_are_balanced(p: Params)
    ensures
        joins_clause(p).is_balanced(),
{
    reveal_strlit(" INNER JOIN wp_postmeta ON wp_postmeta.post_id = wp_posts.ID");
    reveal_strlit(
        " INNER JOIN wp_term_relationships
            ON wp_posts.ID = wp_term_relationships.object_id
            INNER JOIN wp_term_taxonomy ON wp_term_taxonomy.term_taxonomy_id = wp_term_relationships.term_taxonomy_id
            INNER JOIN wp_terms ON wp_terms.term_id = wp_term_taxonomy.term_id",
    );
    reveal_strlit(" INNER JOIN wp_users ON wp_users.ID = wp_posts.post_author");
    lemma_no_placeholder(joins_clause(p).text);
}

/// A test against one id is balanced.
pub proof fn lemma_id_clause_is_balanced(text: Seq<char>, id: Option<u64>)
    requires
        text.len() > 0,
        text.last() == '?',
        has_no_placeholder(text.drop_last()),
    ensures
        id_clause(text, id).is_balanced(),
{
    if id is Some {
        lemma_bound_is_balanced(text, SqlValueView::UInt(id->0));
    }
}

/// A test against one text is balanced.
pub proof fn lemma_text_clause_is_balanced(text: Seq<char>, value: Option<&str>)
    requires
        text.len() > 0,
        text.last() == '?',
        has_no_placeholder(text.drop_last()),
    ensures
        text_clause(text, value).is_balanced(),
{
    if value is Some {
        lemma_bound_is_balanced(text, crate::value::text_value(value->0@));
    }
}

/// A test against a list of ids is balanced.
pub proof fn lemma_id_list_clause_is_balanced(opening: Seq<char>, ids: Option<Vec<u64>>)
    requires
        has_no_placeholder(opening),
    ensures
        id_list_clause(opening, ids).is_balanced(),
{
    if ids is Some {
        lemma_list_clause_is_balanced(opening, crate::value::id_values(ids->0@));
    }
}

/// A test against a list of texts is balanced.
pub proof fn lemma_text_list_clause_is_balanced(opening: Seq<char>, texts: Option<Vec<&str>>)
    requires
        has_no_placeholder(opening),
    ensures
        text_list_clause(opening, texts).is_balanced(),
{
    if texts is Some {
        lemma_list_clause_is_balanced(opening, crate::value::text_values(texts->0@));
    }
}

/// The filters on the author are balanced.
pub proof fn lemma_author_is_balanced(p: Params)
    ensures
        author_clause(p).is_balanced(),
{
    reveal_strlit(" AND post_author = ?");
    reveal_strlit(" AND wp_users.user_nicename = ?");
    reveal_strlit(" AND post_author IN (");
    reveal_strlit(" AND post_author NOT IN (");
    let a = id_clause(" AND post_author = ?"@, p.author);
    let b = text_clause(" AND wp_users.user_nicename = ?"@, p.author_name);
    let c = id_list_clause(" AND post_author IN ("@, p.author__in);
    let d = id_list_clause(" AND post_author NOT IN ("@, p.author__not_in);
    lemma_id_clause_is_balanced(" AND post_author = ?"@, p.author);
    lemma_text_clause_is_balanced(" AND wp_users.user_nicename = ?"@, p.author_name);
    lemma_id_list_clause_is_balanced(" AND post_author IN ("@, p.author__in);
    lemma_id_list_clause_is_balanced(" AND post_author NOT IN ("@, p.author__not_in);
    lemma_with_is_balanced(a, b);
    lemma_with_is_balanced(a.with(b), c);
    lemma_with_is_balanced(a.with(b).with(c), d);
}

/// The filter on the status is balanced.
pub proof fn lemma_status_is_balanced(p: Params)
    ensures
        status_clause(p).is_balanced(),
{
    reveal_strlit(" AND post_status = ?");
    lemma_ends_in_placeholder(" AND post_status = ?"@);
}

/// The tests for required slugs are balanced.
pub proof fn lemma_slug_tests_are_balanced(slugs: Seq<&str>)
    ensures
        slug_tests(slugs).is_balanced(),
    decreases slugs.len(),
{
    if slugs.len() > 0 {
        reveal_strlit(" AND wp_terms.slug = ?");
        lemma_slug_tests_are_balanced(slugs.drop_last());
        let last = bound(" AND wp_terms.slug = ?"@, crate::value::text_value(slugs.last()@));
        lemma_bound_is_balanced(last.text, last.values[0]);
        lemma_with_is_balanced(slug_tests(slugs.drop_last()), last);
    }
}

/// The filters on terms are balanced.
pub proof fn lemma_terms_are_balanced(p: Params)
    ensures
        term_clause(p).is_balanced(),
{
    reveal_strlit(" AND wp_terms.slug IN (");
    reveal_strlit(" AND wp_terms.term_id IN (");
    reveal_strlit(" AND wp_terms.term_id NOT IN (");
    let a = required_slugs_clause(p);
    let b = text_list_clause(" AND wp_terms.slug IN ("@, p.term_slug_in);
    let c = id_list_clause(" AND wp_terms.term_id IN ("@, p.term_in);
    let d = id_list_clause(" AND wp_terms.term_id NOT IN ("@, p.term_not_in);
    if p.term_slug_and is Some {
        lemma_slug_tests_are_balanced(p.term_slug_and->0@);
    }
    lemma_text_list_clause_is_balanced(" AND wp_terms.slug IN ("@, p.term_slug_in);
    lemma_id_list_clause_is_balanced(" AND wp_terms.term_id IN ("@, p.term_in);
    lemma_id_list_clause_is_balanced(" AND wp_terms.term_id NOT IN ("@, p.term_not_in);
    lemma_with_is_balanced(a, b);
    lemma_with_is_balanced(a.with(b), c);
    lemma_with_is_balanced(a.with(b).with(c), d);
}

/// One taxonomy clause is balanced.
pub proof fn lemma_tax_test_is_balanced(q: TaxQuery)
    ensures
        tax_test(q).is_balanced(),
{
    reveal_strlit(" wp_");
    reveal_strlit(" ");
    reveal_strlit(" (");
    lemma_names_have_no_placeholder();
    let opening = " wp_"@ + q.field.text() + " "@ + q.operator.text() + " ("@;
    assert(has_no_placeholder(q.field.text()));
    assert(has_no_placeholder(q.operator.text()));
    lemma_concat_has_no_placeholder(" wp_"@, q.field.text());
    lemma_concat_has_no_placeholder(" wp_"@ + q.field.text(), " "@);
    lemma_concat_has_no_placeholder(" wp_"@ + q.field.text() + " "@, q.operator.text());
    lemma_concat_has_no_placeholder(
        " wp_"@ + q.field.text() + " "@ + q.operator.text(),
        " ("@,
    );
    lemma_list_clause_is_balanced(opening, crate::value::string_values(q.terms@));
}

/// Whether a group's keyword holds no `?` and each of its clauses is
/// balanced.
pub open spec fn is_sound_group(keyword: Seq<char>, tests: Seq<Clause>) -> bool {
    &&& has_no_placeholder(keyword)
    &&& forall|i: int| 0 <= i < tests.len() ==> (#[trigger] tests[i]).is_balanced()
}

/// Balanced clauses joined by a keyword without a `?` are balanced.
pub proof fn lemma_joined_tests_are_balanced(keyword: Seq<char>, tests: Seq<Clause>)
    requires
        is_sound_group(keyword, tests),
    ensures
        joined_tests(keyword, tests).is_balanced(),
    decreases tests.len(),
{
    if tests.len() > 0 {
        reveal_strlit(" ");
        let earlier = tests.drop_last();
        assert forall|i: int| 0 <= i < earlier.len() implies (#[trigger] earlier[i]).is_balanced() by {
            assert(tests[i].is_balanced());
        }
        lemma_joined_tests_are_balanced(keyword, earlier);
        let joint = if tests.len() > 1 {
            fixed(" "@ + keyword)
        } else {
            nothing()
        };
        lemma_concat_has_no_placeholder(" "@, keyword);
        lemma_with_is_balanced(joined_tests(keyword, earlier), joint);
        assert(tests.last().is_balanced());
        lemma_with_is_balanced(joined_tests(keyword, earlier).with(joint), tests.last());
    }
}

/// Groups of balanced clauses are balanced.
pub proof fn lemma_joined_groups_are_balanced(groups: Seq<(Seq<char>, Seq<Clause>)>)
    requires
        forall|i: int|
            0 <= i < groups.len() ==> is_sound_group((#[trigger] groups[i]).0, groups[i].1),
    ensures
        joined_groups(groups).is_balanced(),
    decreases groups.len(),
{
    if groups.len() > 0 {
        reveal_strlit(" AND");
        let earlier = groups.drop_last();
        assert forall|i: int| 0 <= i < earlier.len() implies is_sound_group(
            (#[trigger] earlier[i]).0,
            earlier[i].1,
        ) by {
            assert(is_sound_group(groups[i].0, groups[i].1));
        }
        lemma_joined_groups_are_balanced(earlier);
        assert(is_sound_group(groups.last().0, groups.last().1));
        lemma_joined_tests_are_balanced(groups.last().0, groups.last().1);
        lemma_fixed_is_balanced(" AND"@);
        lemma_with_is_balanced(joined_groups(earlier), fixed(" AND"@));
        lemma_with_is_balanced(
            joined_groups(earlier).with(fixed(" AND"@)),
            joined_tests(groups.last().0, groups.last().1),
        );
    }
}

/// The taxonomy groups are balanced.
pub proof fn lemma_tax_groups_are_balanced(groups: Seq<(TaxRelation, Seq<TaxQuery>)>)
    ensures
        tax_groups(groups).is_balanced(),
{
    lemma_names_have_no_placeholder();
    let keyed = tax_keyed(groups);
    assert forall|i: int| 0 <= i < keyed.len() implies is_sound_group(
        (#[trigger] keyed[i]).0,
        keyed[i].1,
    ) by {
        let tests = keyed[i].1;
        assert(has_no_placeholder(groups[i].0.text()));
        assert forall|j: int| 0 <= j < tests.len() implies (#[trigger] tests[j]).is_balanced() by {
            lemma_tax_test_is_balanced(groups[i].1[j]);
        }
    }
    lemma_joined_groups_are_balanced(keyed);
}

/// The search binds its keyword twice, once for each placeholder.
pub proof fn lemma_search_is_balanced(p: Params)
    ensures
        search_clause(p).is_balanced(),
{
    if p.s is Some {
        reveal_strlit(
            " AND wp_posts.post_content LIKE CONCAT('%',?,'%') OR wp_posts.post_title LIKE CONCAT('%',?,'%')",
        );
        lemma_two_placeholders(search_clause(p).text, 43, 89);
    }
}

/// The filter on the type is balanced.
pub proof fn lemma_post_type_is_balanced(p: Params)
    ensures
        post_type_clause(p).is_balanced(),
{
    reveal_strlit(" AND wp_posts.post_type = 'post'");
    reveal_strlit(" AND wp_posts.post_type IN (");
    if p.post_type is Some {
        if p.post_type->0@.len() > 0 {
            lemma_list_clause_is_balanced(
                " AND wp_posts.post_type IN ("@,
                crate::query_builder::clauses::post_type_values(p.post_type->0@),
            );
        }
    } else {
        lemma_fixed_is_balanced(" AND wp_posts.post_type = 'post'"@);
    }
}

/// The filters on the post itself are balanced.
pub proof fn lemma_post_is_balanced(p: Params)
    ensures
        post_clause(p).is_balanced(),
{
    reveal_strlit(" AND wp_posts.ID = ?");
    reveal_strlit(" AND wp_posts.post_name = ?");
    reveal_strlit(" AND wp_posts.post_parent = ?");
    reveal_strlit(" AND wp_posts.post_parent IN (");
    reveal_strlit(" AND wp_posts.post_parent NOT IN (");
    reveal_strlit(" AND wp_posts.ID IN (");
    reveal_strlit(" AND wp_posts.ID NOT IN (");
    reveal_strlit(" AND wp_posts.post_name IN (");
    let c1 = id_clause(" AND wp_posts.ID = ?"@, p.p);
    let c2 = text_clause(" AND wp_posts.post_name = ?"@, p.name);
    let c3 = post_type_clause(p);
    let c4 = id_clause(" AND wp_posts.post_parent = ?"@, p.post_parent);
    let c5 = id_list_clause(" AND wp_posts.post_parent IN ("@, p.post_parent__in);
    let c6 = id_list_clause(" AND wp_posts.post_parent NOT IN ("@, p.post_parent__not_in);
    let c7 = id_list_clause(" AND wp_posts.ID IN ("@, p.post__in);
    let c8 = id_list_clause(" AND wp_posts.ID NOT IN ("@, p.post__not_in);
    let c9 = text_list_clause(" AND wp_posts.post_name IN ("@, p.post_name__in);
    lemma_id_clause_is_balanced(" AND wp_posts.ID = ?"@, p.p);
    lemma_text_clause_is_balanced(" AND wp_posts.post_name = ?"@, p.name);
    lemma_post_type_is_balanced(p);
    lemma_id_clause_is_balanced(" AND wp_posts.post_parent = ?"@, p.post_parent);
    lemma_id_list_clause_is_balanced(" AND wp_posts.post_parent IN ("@, p.post_parent__in);
    lemma_id_list_clause_is_balanced(" AND wp_posts.post_parent NOT IN ("@, p.post_parent__not_in);
    lemma_id_list_clause_is_balanced(" AND wp_posts.ID IN ("@, p.post__in);
    lemma_id_list_clause_is_balanced(" AND wp_posts.ID NOT IN ("@, p.post__not_in);
    lemma_text_list_clause_is_balanced(" AND wp_posts.post_name IN ("@, p.post_name__in);
    lemma_with_is_balanced(c1, c2);
    lemma_with_is_balanced(c1.with(c2), c3);
    lemma_with_is_balanced(c1.with(c2).with(c3), c4);
    lemma_with_is_balanced(c1.with(c2).with(c3).with(c4), c5);
    lemma_with_is_balanced(c1.with(c2).with(c3).with(c4).with(c5), c6);
    lemma_with_is_balanced(c1.with(c2).with(c3).with(c4).with(c5).with(c6), c7);
    lemma_with_is_balanced(c1.with(c2).with(c3).with(c4).with(c5).with(c6).with(c7), c8);
    lemma_with_is_balanced(
        c1.with(c2).with(c3).with(c4).with(c5).with(c6).with(c7).with(c8),
        c9,
    );
}

/// The test against one bound of a date range is balanced.
pub proof fn lemma_date_bound_is_balanced(q: DateQuery, inclusive: bool, value: SqlValueView)
    ensures
        bound(date_bound_text(q, after_operator(inclusive)), value).is_balanced(),
        bound(date_bound_text(q, before_operator(inclusive)), value).is_balanced(),
{
    reveal_strlit(" ");
    reveal_strlit(" wp_posts.");
    reveal_strlit(">=");
    reveal_strlit(">");
    reveal_strlit("<=");
    reveal_strlit("<");
    lemma_names_have_no_placeholder();
    assert(has_no_placeholder(q.relation.text()));
    assert(has_no_placeholder(q.column.text()));
    let head = " "@ + q.relation.text() + " wp_posts."@ + q.column.text() + " "@;
    lemma_concat_has_no_placeholder(" "@, q.relation.text());
    lemma_concat_has_no_placeholder(" "@ + q.relation.text(), " wp_posts."@);
    lemma_concat_has_no_placeholder(" "@ + q.relation.text() + " wp_posts."@, q.column.text());
    lemma_concat_has_no_placeholder(
        " "@ + q.relation.text() + " wp_posts."@ + q.column.text(),
        " "@,
    );
    lemma_concat_has_no_placeholder(head, after_operator(inclusive));
    lemma_concat_has_no_placeholder(head, before_operator(inclusive));
    lemma_stem_bound_is_balanced(head + after_operator(inclusive), value);
    lemma_stem_bound_is_balanced(head + before_operator(inclusive), value);
}

/// One date filter is balanced.
pub proof fn lemma_date_test_is_balanced(q: DateQuery)
    ensures
        date_test(q).is_balanced(),
{
    reveal_strlit(" AND wp_posts.");
    reveal_strlit(" = ?");
    lemma_names_have_no_placeholder();
    if q.has_exact_date() {
        let stem = " AND wp_posts."@ + q.column.text();
        assert(has_no_placeholder(q.column.text()));
        lemma_concat_has_no_placeholder(" AND wp_posts."@, q.column.text());
        let text = stem + " = ?"@;
        assert(text.drop_last() =~= stem + seq![' ', '=', ' ']);
        lemma_bound_is_balanced(text, q.value());
    }
    if q.after is Some {
        lemma_date_bound_is_balanced(q, q.inclusive, q.after->0.value());
    }
    if q.before is Some {
        lemma_date_bound_is_balanced(q, q.inclusive, q.before->0.value());
    }
    lemma_with_is_balanced(exact_date_test(q), after_test(q));
    lemma_with_is_balanced(exact_date_test(q).with(after_test(q)), before_test(q));
}

/// The date filters are balanced.
pub proof fn lemma_date_tests_are_balanced(queries: Seq<DateQuery>)
    ensures
        date_tests(queries).is_balanced(),
    decreases queries.len(),
{
    if queries.len() > 0 {
        lemma_date_tests_are_balanced(queries.drop_last());
        lemma_date_test_is_balanced(queries.last());
        lemma_with_is_balanced(date_tests(queries.drop_last()), date_test(queries.last()));
    }
}

/// The filters on dates are balanced.
pub proof fn lemma_dates_are_balanced(p: Params)
    ensures
        date_clause(p).is_balanced(),
{
    reveal_strlit(" AND wp_posts.post_date = ?");
    if crate::query_builder::clauses::has_single_date(p) {
        lemma_ends_in_placeholder(" AND wp_posts.post_date = ?"@);
    }
    if p.date_query is Some {
        lemma_date_tests_are_balanced(p.date_query->0@);
    }
    lemma_with_is_balanced(single_date_clause(p), date_queries_clause(p));
}

/// The single custom-field filter is balanced.
pub proof fn lemma_single_meta_is_balanced(p: Params)
    ensures
        single_meta_clause(p).is_balanced(),
{
    reveal_strlit(" AND wp_postmeta.meta_key ");
    reveal_strlit(" AND wp_postmeta.meta_value ");
    lemma_names_have_no_placeholder();
    let op = meta_operator(p).text();
    assert(has_no_placeholder(op));
    lemma_concat_has_no_placeholder(" AND wp_postmeta.meta_key "@, op);
    lemma_concat_has_no_placeholder(" AND wp_postmeta.meta_value "@, op);
    if p.meta_key is Some {
        lemma_stem_bound_is_balanced(
            " AND wp_postmeta.meta_key "@ + op,
            crate::value::text_value(p.meta_key->0@),
        );
    }
    if p.meta_value is Some {
        lemma_stem_bound_is_balanced(
            " AND wp_postmeta.meta_value "@ + op,
            crate::value::text_value(p.meta_value->0@),
        );
    }
    if p.meta_value_num is Some {
        lemma_stem_bound_is_balanced(
            " AND wp_postmeta.meta_value "@ + op,
            SqlValueView::Int(p.meta_value_num->0),
        );
    }
    lemma_with_is_balanced(meta_key_clause(p), meta_value_clause(p));
    lemma_with_is_balanced(meta_key_clause(p).with(meta_value_clause(p)), meta_number_clause(p));
}

/// One custom-field clause is balanced: a test for presence has one
/// placeholder and binds the key; a comparison has two and binds value and
/// key.
pub proof fn lemma_meta_test_is_balanced(q: MetaQuery)
    ensures
        meta_test(q).is_balanced(),
        q.compare.is_existence_test() ==> meta_test(q).values.len() == 1,
        !q.compare.is_existence_test() ==> meta_test(q).values.len() == 2,
{
    lemma_names_have_no_placeholder();
    let op = q.compare.text();
    assert(has_no_placeholder(op));
    if q.compare.is_existence_test() {
        reveal_strlit(" ");
        reveal_strlit(
            " (SELECT * FROM wp_postmeta WHERE meta_key = ? AND wp_postmeta.post_id = wp_posts.ID)",
        );
        let lookup =
            " (SELECT * FROM wp_postmeta WHERE meta_key = ? AND wp_postmeta.post_id = wp_posts.ID)"@;
        crate::text::lemma_one_placeholder(lookup, 45);
        lemma_concat_has_no_placeholder(" "@, op);
        lemma_placeholder_count_concat(" "@ + op, lookup);
    } else {
        reveal_strlit(" (wp_postmeta.meta_value ");
        reveal_strlit(" ? AND wp_postmeta.meta_key ");
        reveal_strlit(" ?)");
        let a = " (wp_postmeta.meta_value "@;
        let b = " ? AND wp_postmeta.meta_key "@;
        let c = " ?)"@;
        crate::text::lemma_one_placeholder(b, 1);
        crate::text::lemma_one_placeholder(c, 1);
        lemma_concat_has_no_placeholder(a, op);
        lemma_no_placeholder(op);
        lemma_placeholder_count_concat(a + op, b);
        lemma_placeholder_count_concat(a + op + b, op);
        lemma_placeholder_count_concat(a + op + b + op, c);
    }
}

/// The custom-field groups are balanced.
pub proof fn lemma_meta_groups_are_balanced(groups: Seq<(MetaRelation, Seq<MetaQuery>)>)
    ensures
        meta_groups(groups).is_balanced(),
{
    lemma_names_have_no_placeholder();
    let keyed = meta_keyed(groups);
    assert forall|i: int| 0 <= i < keyed.len() implies is_sound_group(
        (#[trigger] keyed[i]).0,
        keyed[i].1,
    ) by {
        let tests = keyed[i].1;
        assert(has_no_placeholder(groups[i].0.text()));
        assert forall|j: int| 0 <= j < tests.len() implies (#[trigger] tests[j]).is_balanced() by {
            lemma_meta_test_is_balanced(groups[i].1[j]);
        }
    }
    lemma_joined_groups_are_balanced(keyed);
}

/// The ordering binds nothing.
pub proof fn lemma_order_is_balanced(p: Params)
    ensures
        order_clause(p).is_balanced(),
{
    if p.orderby is Some {
        reveal_strlit(" ORDER BY ");
        reveal_strlit(" ");
        lemma_names_have_no_placeholder();
        let column = p.orderby->0.text();
        let direction = sort_direction(p).text();
        assert(has_no_placeholder(column));
        assert(has_no_placeholder(direction));
        lemma_concat_has_no_placeholder(" ORDER BY "@, column);
        lemma_concat_has_no_placeholder(" ORDER BY "@ + column, " "@);
        lemma_concat_has_no_placeholder(" ORDER BY "@ + column + " "@, direction);
    }
}

/// Limit and offset are balanced.
pub proof fn lemma_page_is_balanced(p: Params)
    ensures
        page_clause(p).is_balanced(),
{
    reveal_strlit(" LIMIT ? OFFSET ?;");
    reveal_strlit(" LIMIT ?;");
    if p.page is Some {
        lemma_two_placeholders(" LIMIT ? OFFSET ?;"@, 7, 16);
    } else {
        crate::text::lemma_one_placeholder(" LIMIT ?;"@, 7);
    }
}

/// Every statement binds one value for each of its placeholders: the number
/// of `?` in the text is the number of values.
pub proof fn lemma_statement_is_balanced(p: Params)
    ensures
        statement(p).is_balanced(),
        placeholder_count(statement(p).text) == statement(p).values.len(),
{
    reveal_strlit(" WHERE 1 = 1");
    lemma_select_is_balanced();
    lemma_joins_are_balanced(p);
    lemma_fixed_is_balanced(" WHERE 1 = 1"@);
    lemma_author_is_balanced(p);
    lemma_status_is_balanced(p);
    lemma_terms_are_balanced(p);
    if p.tax_query is Some {
        lemma_tax_groups_are_balanced(p.tax_query->0@);
    }
    lemma_search_is_balanced(p);
    lemma_post_is_balanced(p);
    lemma_dates_are_balanced(p);
    lemma_single_meta_is_balanced(p);
    if p.meta_query is Some {
        lemma_meta_groups_are_balanced(p.meta_query->0@);
    }
    lemma_with_is_balanced(single_meta_clause(p), meta_query_clause(p));
    lemma_order_is_balanced(p);
    lemma_page_is_balanced(p);
    let s1 = select_clause().with(joins_clause(p));
    lemma_with_is_balanced(select_clause(), joins_clause(p));
    let s2 = s1.with(where_clause());
    lemma_with_is_balanced(s1, where_clause());
    let s3 = s2.with(author_clause(p));
    lemma_with_is_balanced(s2, author_clause(p));
    let s4 = s3.with(status_clause(p));
    lemma_with_is_balanced(s3, status_clause(p));
    let s5 = s4.with(term_clause(p));
    lemma_with_is_balanced(s4, term_clause(p));
    let s6 = s5.with(tax_query_clause(p));
    lemma_with_is_balanced(s5, tax_query_clause(p));
    let s7 = s6.with(search_clause(p));
    lemma_with_is_balanced(s6, search_clause(p));
    let s8 = s7.with(post_clause(p));
    lemma_with_is_balanced(s7, post_clause(p));
    let s9 = s8.with(date_clause(p));
    lemma_with_is_balanced(s8, date_clause(p));
    let s10 = s9.with(meta_clause(p));
    lemma_with_is_balanced(s9, meta_clause(p));
    let s11 = s10.with(order_clause(p));
    lemma_with_is_balanced(s10, order_clause(p));
    lemma_with_is_balanced(s11, page_clause(p));
}

} // verus!
