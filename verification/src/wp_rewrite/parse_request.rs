//! From the address of a request to the description of the posts it asks
//! for.

use vstd::prelude::*;

use crate::params::param_builder::ParamBuilder;
use crate::params::post_type::PostType;
use crate::params::{pushed, Params};
use crate::strings::{
    contains, occurs_in, parse_u64, parsed_u64, split_once, str_eq, trim_slashes,
    without_outer_slashes,
};
use crate::wp_rewrite::pattern::{captured_groups, pattern_compiles, regex_compiles};
use crate::wp_rewrite::rewrite_rule::{chosen, matches_of, query_keys, query_string};
use crate::wp_rewrite::WpRewrite;

verus! {

/// A request that no rule and no default form accounts for.
#[derive(Debug, PartialEq, Eq, Clone, Copy, Structural)]
pub struct WpParseError {}

impl WpParseError {
    pub fn to_string(&self) -> (r: String)
        ensures
            r@ == "Could not parse request"@,
    {
        "Could not parse request".to_owned()
    }
}

/// What a request is to be served as.
#[derive(Debug, PartialEq, Eq)]
pub enum Rewritten {
    /// The request as it came: it already asks for a post by id.
    Unchanged,
    /// `index.php` with the given query.
    IndexPhp(String),
}

/// Whether `r` is the part of `path` that the rules are matched against:
/// what follows the first `.php`, or the whole path where there is none,
/// without the slashes at its start and at its end.
pub open spec fn is_path_info(r: Seq<char>, path: Seq<char>) -> bool {
    if occurs_in(".php"@, path) {
        exists|before: Seq<char>, after: Seq<char>|
            path == before + ".php"@ + after && !occurs_in(
                ".php"@,
                (before + ".php"@).drop_last(),
            ) && r == without_outer_slashes(after)
    } else {
        r == without_outer_slashes(path)
    }
}

/// The part of a path that the rules are matched against: `some/stuff` for
/// `/php/path_info.php/some/stuff`.
pub fn path_info(path: &str) -> (r: &str)
    ensures
        is_path_info(r@, path@),
{
    proof {
        reveal_strlit(".php");
    }
    match split_once(path, ".php") {
        Some((before, after)) => {
            let r = trim_slashes(after);
            proof {
                let whole = before@ + ".php"@ + after@;
                reveal_strlit(".php");
                assert(whole.subrange(before@.len() as int, before@.len() as int + 4) =~= ".php"@);
                assert(path@ == before@ + ".php"@ + after@ && !occurs_in(
                    ".php"@,
                    (before@ + ".php"@).drop_last(),
                ) && r@ == without_outer_slashes(after@));
            }
            r
        },
        None => trim_slashes(path),
    }
}

/// The pattern that finds the home path of a site at the start of a path.
pub open spec fn home_path_pattern(home_path: Seq<char>) -> Seq<char> {
    "|^"@ + home_path + "|i"@
}

/// The pattern for the home path of a site, if there is a home path and the
/// pattern it makes is a regular expression.
pub fn get_home_path_regex(home_path: Option<&str>) -> (r: Option<String>)
    ensures
        r is Some <==> home_path is Some && pattern_compiles(home_path_pattern(home_path->0@)),
        r is Some ==> r->0@ == home_path_pattern(home_path->0@),
{
    match home_path {
        Some(path) => {
            let mut regex = "|^".to_owned();
            regex.append(path);
            regex.append("|i");
            if regex_compiles(regex.as_str()) {
                Some(regex)
            } else {
                None
            }
        },
        None => None,
    }
}

/// What a request with the given path and query is to be served as. With
/// rules, the best rule that matches the path gives the query; without
/// rules, a query that holds `p=` is served as it came. Everything else is
/// an error.
pub open spec fn is_rewriting_of(
    r: Result<Rewritten, WpParseError>,
    w: WpRewrite,
    info: Seq<char>,
    query: Option<&str>,
) -> bool {
    match w.rules {
        Some(rules) => match chosen(
            rules.0@,
            matches_of(rules.0@, info),
            w,
            rules.0@.len() as int,
        ) {
            Some(at) => match captured_groups(rules.0@[at].regex@, info) {
                Some(groups) => r is Ok && r->Ok_0 is IndexPhp && r->Ok_0->IndexPhp_0@
                    == query_string(query_keys(rules.0@[at].query@), groups),
                None => r is Err,
            },
            None => r is Err,
        },
        None => if query is Some && occurs_in("p="@, query->0@) {
            r == Ok::<Rewritten, WpParseError>(Rewritten::Unchanged)
        } else {
            r is Err
        },
    }
}

/// Decides what a request is to be served as, from the path and the query
/// of its address.
pub fn rewrite_request(wp_rewrite: &WpRewrite, path: &str, query: Option<&str>) -> (r: Result<
    Rewritten,
    WpParseError,
>)
    ensures
        exists|info: Seq<char>|
            is_path_info(info, path@) && is_rewriting_of(r, *wp_rewrite, info, query),
{
    let pathinfo = path_info(path);
    let r = match &wp_rewrite.rules {
        Some(rules) => {
            match rules.find_match(pathinfo, wp_rewrite) {
                Some(rule) => match rule.replace(pathinfo) {
                    Some(q_params) => Ok(Rewritten::IndexPhp(q_params)),
                    None => Err(WpParseError {  }),
                },
                None => Err(WpParseError {  }),
            }
        },
        None => {
            let by_id = match query {
                Some(q) => contains(q, "p="),
                None => false,
            };
            if by_id {
                Ok(Rewritten::Unchanged)
            } else {
                Err(WpParseError {  })
            }
        },
    };
    assert(is_path_info(pathinfo@, path@) && is_rewriting_of(r, *wp_rewrite, pathinfo@, query));
    r
}

/// What is wrong with a variable of a query.
#[derive(Debug, PartialEq, Eq, Clone, Copy, Structural)]
pub enum QueryVarError {
    /// The value is no number, or too large a one.
    NotANumber,
    /// The value is no year up to 9999, or no month from 1 to 12.
    OutOfRange,
}

/// Whether `after` is what one variable of a query makes of `before`: `p`,
/// `year` and `monthnum` set a number, `post_type` admits one more type,
/// `name` and `pagename` set the slug, `category_name` asks for one more
/// category, `author_name` sets the author. Any other variable changes
/// nothing.
pub open spec fn is_applied<'a>(
    before: Params<'a>,
    key: Seq<char>,
    value: &'a str,
    after: Result<Params<'a>, QueryVarError>,
) -> bool {
    if key == "p"@ {
        match parsed_u64(value@) {
            Some(n) => after is Ok && after->Ok_0 == (Params { p: Some(n), ..before }),
            None => after == Err::<Params<'a>, QueryVarError>(QueryVarError::NotANumber),
        }
    } else if key == "post_type"@ {
        &&& after is Ok
        &&& after->Ok_0.post_type is Some
        &&& after->Ok_0.post_type->0@.len() == pushed(before.post_type, PostType::Post).len()
        &&& after->Ok_0.post_type->0@.drop_last() == pushed(
            before.post_type,
            PostType::Post,
        ).drop_last()
        &&& after->Ok_0.post_type->0@.last().is_named(value@)
        &&& after->Ok_0 == (Params { post_type: after->Ok_0.post_type, ..before })
    } else if key == "year"@ {
        match parsed_u64(value@) {
            Some(n) => if n <= 9999 {
                after is Ok && after->Ok_0 == (Params { year: Some(n as u16), ..before })
            } else {
                after == Err::<Params<'a>, QueryVarError>(QueryVarError::OutOfRange)
            },
            None => after == Err::<Params<'a>, QueryVarError>(QueryVarError::NotANumber),
        }
    } else if key == "monthnum"@ {
        match parsed_u64(value@) {
            Some(n) => if 1 <= n <= 12 {
                after is Ok && after->Ok_0 == (Params { monthnum: Some(n as u8), ..before })
            } else {
                after == Err::<Params<'a>, QueryVarError>(QueryVarError::OutOfRange)
            },
            None => after == Err::<Params<'a>, QueryVarError>(QueryVarError::NotANumber),
        }
    } else if key == "name"@ || key == "pagename"@ {
        after is Ok && after->Ok_0 == (Params { name: Some(value), ..before })
    } else if key == "category_name"@ {
        &&& after is Ok
        &&& after->Ok_0.term_slug_and is Some
        &&& after->Ok_0.term_slug_and->0@ == pushed(before.term_slug_and, value)
        &&& after->Ok_0 == (Params { term_slug_and: after->Ok_0.term_slug_and, ..before })
    } else if key == "author_name"@ {
        after is Ok && after->Ok_0 == (Params { author_name: Some(value), ..before })
    } else {
        after is Ok && after->Ok_0 == before
    }
}

/// Applies one variable of a query to the description built so far.
pub fn apply_query_var<'a>(builder: ParamBuilder<'a>, key: &str, value: &'a str) -> (r: Result<
    ParamBuilder<'a>,
    QueryVarError,
>)
    ensures
        is_applied(
            builder.0,
            key@,
            value,
            match r {
                Ok(b) => Ok(b.0),
                Err(e) => Err(e),
            },
        ),
{
    if str_eq(key, "p") {
        match parse_u64(value) {
            Some(n) => Ok(builder.p(n)),
            None => Err(QueryVarError::NotANumber),
        }
    } else if str_eq(key, "post_type") {
        let post_type = PostType::from(value);
        let ghost held = builder.0.post_type;
        let b = crate::params::traits::PostQueryable::post_type(builder, post_type);
        proof {
            assert(b.0.post_type->0@.drop_last() =~= pushed(held, PostType::Post).drop_last());
        }
        Ok(b)
    } else if str_eq(key, "year") {
        match parse_u64(value) {
            Some(n) => if n <= 9999 {
                Ok(builder.year(n as u16))
            } else {
                Err(QueryVarError::OutOfRange)
            },
            None => Err(QueryVarError::NotANumber),
        }
    } else if str_eq(key, "monthnum") {
        match parse_u64(value) {
            Some(n) => if 1 <= n && n <= 12 {
                Ok(builder.monthnum(n as u8))
            } else {
                Err(QueryVarError::OutOfRange)
            },
            None => Err(QueryVarError::NotANumber),
        }
    } else if str_eq(key, "name") || str_eq(key, "pagename") {
        Ok(builder.name(value))
    } else if str_eq(key, "category_name") {
        Ok(builder.category_name(value))
    } else if str_eq(key, "author_name") {
        Ok(builder.author_name(value))
    } else {
        Ok(builder)
    }
}

/// Whether `after` is what one variable of a query makes of `before`: an
/// error stays, a description has the variable applied.
pub open spec fn is_step<'a>(
    before: Result<Params<'a>, QueryVarError>,
    pair: (&'a str, &'a str),
    after: Result<Params<'a>, QueryVarError>,
) -> bool {
    match before {
        Ok(p) => is_applied(p, pair.0@, pair.1, after),
        Err(_) => after == before,
    }
}

/// Whether `states` are the descriptions that the variables of a query make
/// one after another, starting from the description without filters.
pub open spec fn is_trace<'a>(
    states: Seq<Result<Params<'a>, QueryVarError>>,
    pairs: Seq<(&'a str, &'a str)>,
) -> bool {
    &&& states.len() == pairs.len() + 1
    &&& states[0] is Ok
    &&& states[0]->Ok_0 == Params::<'a>::blank()
    &&& forall|i: int| 0 <= i < pairs.len() ==> is_step(#[trigger] states[i], pairs[i], states[i + 1])
}

/// Whether `r` is what the variables of a query make of the description
/// without filters, applied one after another and stopping at the first
/// error.
pub open spec fn is_described_by<'a>(
    r: Result<Params<'a>, QueryVarError>,
    pairs: Seq<(&'a str, &'a str)>,
) -> bool {
    exists|states: Seq<Result<Params<'a>, QueryVarError>>| #[trigger]
        is_trace(states, pairs) && states.last() == r
}

/// The description of posts that the variables of a query ask for.
pub fn params_from_query_pairs<'a>(pairs: &Vec<(&'a str, &'a str)>) -> (r: Result<
    Params<'a>,
    QueryVarError,
>)
    ensures
        is_described_by(r, pairs@),
{
    let mut params = ParamBuilder::new();
    let ghost mut states: Seq<Result<Params<'a>, QueryVarError>> = seq![
        Ok::<Params<'a>, QueryVarError>(params.0),
    ];
    let mut i: usize = 0;
    while i < pairs.len()
        invariant
            i <= pairs@.len(),
            states.len() == i + 1,
            states[0] is Ok,
            states[0]->Ok_0 == Params::<'a>::blank(),
            states.last() == Ok::<Params<'a>, QueryVarError>(params.0),
            forall|k: int| 0 <= k < i ==> is_step(#[trigger] states[k], pairs@[k], states[k + 1]),
        decreases pairs@.len() - i,
    {
        match apply_query_var(params, pairs[i].0, pairs[i].1) {
            Ok(b) => {
                params = b;
                proof {
                    states = states.push(Ok::<Params<'a>, QueryVarError>(params.0));
                }
            },
            Err(e) => {
                proof {
                    let failed = Err::<Params<'a>, QueryVarError>(e);
                    let rest = Seq::new((pairs@.len() - i) as nat, |k: int| failed);
                    let all = states + rest;
                    assert forall|k: int| 0 <= k < pairs@.len() implies is_step(
                        #[trigger] all[k],
                        pairs@[k],
                        all[k + 1],
                    ) by {
                        if k < i {
                            assert(is_step(states[k], pairs@[k], states[k + 1]));
                        }
                    }
                    assert(is_trace(all, pairs@) && all.last() == failed);
                }
                return Err(e);
            },
        }
        i = i + 1;
    }
    let r = Ok(params.params());
    proof {
        assert(is_trace(states, pairs@) && states.last() == r);
    }
    r
}

} // verus!
