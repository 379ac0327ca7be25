//! Rewrite rules: patterns for paths and the queries they stand for.

use vstd::prelude::*;

use crate::strings::{find_all, occurrences, starts_with};
use crate::wp_rewrite::pattern::{
    captured_groups, first_groups, groups_view, pattern_compiles, pattern_matches, regex_captures,
    regex_compiles, regex_first_groups, regex_is_match,
};
use crate::wp_rewrite::serialized::{
    declared_lengths_fit, is_php_string_map, keys_are_distinct, lengths_are_covered,
    php_error_text, php_string_pairs,
};
use crate::wp_rewrite::WpRewrite;

verus! {

/// Where a rule stands among the rules.
#[derive(Debug, PartialEq, Eq, Clone, Copy, Structural)]
pub enum Priority {
    Top,
    Bottom,
}

/// One rewrite rule.
#[derive(Debug)]
pub struct RewriteRule {
    /// The regular expression a path is matched against.
    pub regex: String,
    /// The query the rule stands for, such as
    /// `index.php?year=$matches[1]&name=$matches[2]`.
    pub query: String,
    /// The number of `$matches` in the query: the more, the more specific
    /// the rule.
    pub param_count: usize,
    pub after: Priority,
}

/// What a rule holds.
pub struct RewriteRuleView {
    pub regex: Seq<char>,
    pub query: Seq<char>,
    pub param_count: nat,
    pub after: Priority,
}

impl View for RewriteRule {
    type V = RewriteRuleView;

    open spec fn view(&self) -> RewriteRuleView {
        RewriteRuleView {
            regex: self.regex@,
            query: self.query@,
            param_count: self.param_count as nat,
            after: self.after,
        }
    }
}

/// The pattern that finds the keys of a query: what stands between `?` or
/// `&` and the next `=`.
pub open spec fn key_pattern() -> Seq<char> {
    "[?&]([^=]+)=[^&#]*?"@
}

/// The groups that are present, in order.
pub open spec fn present(groups: Seq<Option<Seq<char>>>) -> Seq<Seq<char>>
    decreases groups.len(),
{
    if groups.len() == 0 {
        Seq::empty()
    } else if groups.last() is Some {
        present(groups.drop_last()).push(groups.last()->0)
    } else {
        present(groups.drop_last())
    }
}

/// The keys of a query, in order.
pub open spec fn query_keys(query: Seq<char>) -> Seq<Seq<char>> {
    match first_groups(key_pattern(), query) {
        Some(groups) => present(groups),
        None => Seq::empty(),
    }
}

/// The query that keys and the capture groups of a match make: `key=value`
/// for each key whose group, the one after the whole match counted from the
/// key's place, took part in the match, with `&` before each but one made of
/// the first key.
pub open spec fn query_string(keys: Seq<Seq<char>>, groups: Seq<Option<Seq<char>>>) -> Seq<char>
    decreases keys.len(),
{
    if keys.len() == 0 {
        Seq::empty()
    } else {
        let i = keys.len() - 1;
        let so_far = query_string(keys.drop_last(), groups);
        if i + 1 < groups.len() && groups[i + 1] is Some {
            so_far + (if i > 0 {
                "&"@
            } else {
                Seq::empty()
            }) + keys[i] + "="@ + groups[i + 1]->0
        } else {
            so_far
        }
    }
}

/// What a list of texts holds.
pub open spec fn texts_view(texts: Seq<String>) -> Seq<Seq<char>> {
    Seq::new(texts.len(), |i: int| texts[i]@)
}

impl RewriteRule {
    /// Whether the rule's pattern starts with one of the bases of the site.
    pub open spec fn is_base_for(self, w: WpRewrite) -> bool {
        w.author_base@.is_prefix_of(self.regex@) || w.category_base@.is_prefix_of(self.regex@)
            || w.pagination_base@.is_prefix_of(self.regex@) || w.feed_base@.is_prefix_of(
            self.regex@,
        ) || w.search_base@.is_prefix_of(self.regex@) || w.comments_base@.is_prefix_of(
            self.regex@,
        )
    }

    /// Writes the query that the pairs of key and captured value make. The
    /// group at index 0 is the whole match and belongs to no key.
    pub fn query_string(keys: &Vec<String>, groups: &Vec<Option<String>>) -> (r: String)
        ensures
            r@ == query_string(texts_view(keys@), groups_view(groups@)),
    {
        let mut acc = String::new();
        let mut i: usize = 0;
        proof {
            assert(texts_view(keys@).take(0) =~= Seq::<Seq<char>>::empty());
        }
        while i < keys.len()
            invariant
                i <= keys@.len(),
                acc@ == query_string(texts_view(keys@).take(i as int), groups_view(groups@)),
            decreases keys@.len() - i,
        {
            let ghost before = acc@;
            proof {
                let more = texts_view(keys@).take(i + 1);
                assert(more.drop_last() =~= texts_view(keys@).take(i as int));
                assert(more.last() == keys@[i as int]@);
            }
            if groups.len() > 0 && i < groups.len() - 1 {
                if let Some(v) = &groups[i + 1] {
                    if i > 0 {
                        acc.append("&");
                    }
                    acc.append(keys[i].as_str());
                    acc.append("=");
                    acc.append(v.as_str());
                    proof {
                        let joint = if i > 0 {
                            "&"@
                        } else {
                            Seq::<char>::empty()
                        };
                        assert(acc@ =~= before + joint + keys@[i as int]@ + "="@ + v@);
                    }
                }
            }
            i = i + 1;
        }
        proof {
            assert(texts_view(keys@).take(i as int) =~= texts_view(keys@));
        }
        acc
    }

    /// The keys of the rule's query, in order.
    pub fn get_query_keys(&self) -> (r: Vec<String>)
        ensures
            texts_view(r@) == query_keys(self.query@),
    {
        let mut keys: Vec<String> = Vec::new();
        match regex_first_groups("[?&]([^=]+)=[^&#]*?", self.query.as_str()) {
            Some(groups) => {
                let ghost all = groups_view(groups@);
                let mut i: usize = 0;
                proof {
                    assert(all.take(0) =~= Seq::<Option<Seq<char>>>::empty());
                    assert(texts_view(keys@) =~= present(all.take(0)));
                }
                while i < groups.len()
                    invariant
                        i <= groups@.len(),
                        all == groups_view(groups@),
                        texts_view(keys@) == present(all.take(i as int)),
                    decreases groups@.len() - i,
                {
                    let ghost before = keys@;
                    proof {
                        assert(all.take(i + 1).drop_last() =~= all.take(i as int));
                    }
                    if let Some(key) = &groups[i] {
                        keys.push(key.clone());
                        proof {
                            assert(texts_view(keys@) =~= texts_view(before).push(key@));
                        }
                    }
                    i = i + 1;
                }
                proof {
                    assert(all.take(i as int) =~= all);
                }
            },
            None => {
                assert(texts_view(keys@) =~= Seq::<Seq<char>>::empty());
            },
        }
        keys
    }

    /// The query that a path stands for under this rule, without
    /// `index.php?`: `author_name=admin` for `author/admin`. Nothing where
    /// the rule's pattern does not match the path.
    pub fn replace(&self, path: &str) -> (r: Option<String>)
        ensures
            match captured_groups(self.regex@, path@) {
                Some(groups) => r is Some && r->0@ == query_string(query_keys(self.query@), groups),
                None => r is None,
            },
    {
        let keys = self.get_query_keys();
        match regex_captures(self.regex.as_str(), path) {
            Some(groups) => Some(Self::query_string(&keys, &groups)),
            None => None,
        }
    }

    /// Whether the rule's pattern starts with one of the bases of the site,
    /// which gives it precedence.
    pub fn is_base(&self, wp_rewrite: &WpRewrite) -> (r: bool)
        ensures
            r == self.is_base_for(*wp_rewrite),
    {
        let regex_str = self.regex.as_str();
        starts_with(regex_str, wp_rewrite.author_base.as_str()) || starts_with(
            regex_str,
            wp_rewrite.category_base.as_str(),
        ) || starts_with(regex_str, wp_rewrite.pagination_base.as_str()) || starts_with(
            regex_str,
            wp_rewrite.feed_base.as_str(),
        ) || starts_with(regex_str, wp_rewrite.search_base.as_str()) || starts_with(
            regex_str,
            wp_rewrite.comments_base.as_str(),
        )
    }
}

/// The rules of a site, in the order in which they are tried.
#[derive(Debug)]
pub struct RewriteRules(pub Vec<RewriteRule>);

/// Whether `next` takes the place of `held` as the best rule so far: it
/// starts with a base and `held` does not, or it starts with a base and is
/// more specific, or it is more specific and `held` starts with no base.
pub open spec fn takes_over(held: RewriteRule, next: RewriteRule, w: WpRewrite) -> bool {
    let held_is_base = held.is_base_for(w);
    let next_is_base = next.is_base_for(w);
    let more_specific = next.param_count > held.param_count;
    (next_is_base && !held_is_base) || (next_is_base && more_specific) || (more_specific
        && !held_is_base)
}

/// The place of the best rule among the first `n` whose flag is set, if any
/// flag is set.
pub open spec fn chosen(
    rules: Seq<RewriteRule>,
    matched: Seq<bool>,
    w: WpRewrite,
    n: int,
) -> Option<int>
    decreases n,
{
    if n <= 0 {
        None
    } else {
        let held = chosen(rules, matched, w, n - 1);
        if !matched[n - 1] {
            held
        } else {
            match held {
                None => Some(n - 1),
                Some(at) => if takes_over(rules[at], rules[n - 1], w) {
                    Some(n - 1)
                } else {
                    Some(at)
                },
            }
        }
    }
}

/// For each rule, whether its pattern matches the path.
pub open spec fn matches_of(rules: Seq<RewriteRule>, path: Seq<char>) -> Seq<bool> {
    Seq::new(rules.len(), |i: int| pattern_matches(rules[i].regex@, path))
}

/// The rules that pairs of pattern and query make: one for each pair whose
/// pattern compiles, in the order of the pairs, each at the bottom.
pub open spec fn rules_of(pairs: Seq<(String, String)>) -> Seq<RewriteRuleView>
    decreases pairs.len(),
{
    if pairs.len() == 0 {
        Seq::empty()
    } else if pattern_compiles(pairs.last().0@) {
        rules_of(pairs.drop_last()).push(
            RewriteRuleView {
                regex: pairs.last().0@,
                query: pairs.last().1@,
                param_count: occurrences(pairs.last().1@, "$matches"@),
                after: Priority::Bottom,
            },
        )
    } else {
        rules_of(pairs.drop_last())
    }
}

/// What a list of rules holds.
pub open spec fn rules_view(rules: Seq<RewriteRule>) -> Seq<RewriteRuleView> {
    Seq::new(rules.len(), |i: int| rules[i]@)
}

impl RewriteRules {
    /// Picks the best of the rules whose flag is set. A rule that starts
    /// with a base of the site beats one that does not; otherwise the rule
    /// with more parameters wins, and of two equals the earlier one.
    pub fn most_specific(&self, matched: &Vec<bool>, wp_rewrite: &WpRewrite) -> (r: Option<usize>)
        requires
            matched@.len() == self.0@.len(),
        ensures
            r is Some <==> chosen(self.0@, matched@, *wp_rewrite, self.0@.len() as int) is Some,
            r is Some ==> r->0 == chosen(self.0@, matched@, *wp_rewrite, self.0@.len() as int)->0,
            r is Some ==> r->0 < self.0@.len() && matched@[r->0 as int],
    {
        let mut best: Option<usize> = None;
        let mut i: usize = 0;
        while i < self.0.len()
            invariant
                i <= self.0@.len(),
                matched@.len() == self.0@.len(),
                best is Some <==> chosen(self.0@, matched@, *wp_rewrite, i as int) is Some,
                best is Some ==> best->0 == chosen(self.0@, matched@, *wp_rewrite, i as int)->0,
                best is Some ==> best->0 < i && matched@[best->0 as int],
            decreases self.0@.len() - i,
        {
            if matched[i] {
                best = match best {
                    None => Some(i),
                    Some(at) => {
                        let held = &self.0[at];
                        let next = &self.0[i];
                        let held_is_base = held.is_base(wp_rewrite);
                        let next_is_base = next.is_base(wp_rewrite);
                        let more_specific = next.param_count > held.param_count;
                        if (next_is_base && !held_is_base) || (next_is_base && more_specific) || (
                        more_specific && !held_is_base) {
                            Some(i)
                        } else {
                            Some(at)
                        }
                    },
                };
            }
            i = i + 1;
        }
        best
    }

    /// Finds the rule to apply to a path: the best of the rules whose
    /// pattern matches it.
    pub fn find_match(&self, path: &str, wp_rewrite: &WpRewrite) -> (r: Option<&RewriteRule>)
        ensures
            match chosen(
                self.0@,
                matches_of(self.0@, path@),
                *wp_rewrite,
                self.0@.len() as int,
            ) {
                Some(at) => 0 <= at < self.0@.len() && r == Some(&self.0@[at]),
                None => r is None,
            },
    {
        let mut matched: Vec<bool> = Vec::new();
        let mut i: usize = 0;
        while i < self.0.len()
            invariant
                i <= self.0@.len(),
                matched@.len() == i,
                forall|k: int|
                    0 <= k < i ==> matched@[k] == pattern_matches(
                        (#[trigger] self.0@[k]).regex@,
                        path@,
                    ),
            decreases self.0@.len() - i,
        {
            matched.push(regex_is_match(self.0[i].regex.as_str(), path));
            i = i + 1;
        }
        proof {
            assert(matched@ =~= matches_of(self.0@, path@));
        }
        match self.most_specific(&matched, wp_rewrite) {
            Some(at) => Some(&self.0[at]),
            None => None,
        }
    }

    /// Makes rules of pairs of pattern and query. A pair whose pattern is no
    /// regular expression is left out.
    pub fn from_pairs(pairs: &Vec<(String, String)>) -> (r: RewriteRules)
        ensures
            rules_view(r.0@) == rules_of(pairs@),
    {
        let mut rules: Vec<RewriteRule> = Vec::new();
        let mut i: usize = 0;
        proof {
            assert(pairs@.take(0) =~= Seq::<(String, String)>::empty());
            assert(rules_view(rules@) =~= rules_of(pairs@.take(0)));
        }
        while i < pairs.len()
            invariant
                i <= pairs@.len(),
                rules_view(rules@) == rules_of(pairs@.take(i as int)),
            decreases pairs@.len() - i,
        {
            let ghost before = rules@;
            proof {
                assert(pairs@.take(i + 1).drop_last() =~= pairs@.take(i as int));
            }
            let pair = &pairs[i];
            proof {
                reveal_strlit("$matches");
            }
            if regex_compiles(pair.0.as_str()) {
                let rule = RewriteRule {
                    regex: pair.0.clone(),
                    param_count: find_all(pair.1.as_str(), "$matches").len(),
                    query: pair.1.clone(),
                    after: Priority::Bottom,
                };
                rules.push(rule);
                proof {
                    assert(rules_view(rules@) =~= rules_view(before).push(rule@));
                }
            }
            i = i + 1;
        }
        proof {
            assert(pairs@.take(i as int) =~= pairs@);
        }
        RewriteRules(rules)
    }

    /// Reads the rules from the serialised map the site stores them as:
    /// patterns as keys, queries as values. A text that declares a string
    /// longer than the bytes that follow it is refused unread. Any other
    /// text is decoded, and gives rules exactly when it is such a map; the
    /// rules then stand in the order in which the map hands its entries out.
    pub fn parse(data: &str) -> (r: Result<RewriteRules, RewriteRulesError>)
        ensures
            !lengths_are_covered(vstd::utf8::encode_utf8(data@)) ==> r is Err && r->Err_0.0@
                == "A string is declared longer than the data that follows it"@,
            lengths_are_covered(vstd::utf8::encode_utf8(data@)) ==> (r is Ok <==> is_php_string_map(
                vstd::utf8::encode_utf8(data@),
            )),
            r is Ok ==> exists|pairs: Seq<(String, String)>|
                #[trigger] keys_are_distinct(pairs) && rules_view(r->Ok_0.0@) == rules_of(pairs),
    {
        let bytes = data.as_bytes();
        if !declared_lengths_fit(bytes) {
            return Err(
                RewriteRulesError(
                    "A string is declared longer than the data that follows it".to_owned(),
                ),
            );
        }
        match php_string_pairs(bytes) {
            Ok(pairs) => {
                let rules = RewriteRules::from_pairs(&pairs);
                assert(keys_are_distinct(pairs@) && rules_view(rules.0@) == rules_of(pairs@));
                Ok(rules)
            },
            Err(e) => Err(RewriteRulesError(php_error_text(&e))),
        }
    }
}

/// An option that holds no serialised map of rules.
#[derive(Debug, PartialEq, Eq)]
pub struct RewriteRulesError(pub String);

impl TryFrom<String> for RewriteRules {
    type Error = RewriteRulesError;

    fn try_from(data: String) -> (r: Result<RewriteRules, RewriteRulesError>)
        ensures
            !lengths_are_covered(vstd::utf8::encode_utf8(data@)) ==> r is Err,
            lengths_are_covered(vstd::utf8::encode_utf8(data@)) ==> (r is Ok <==> is_php_string_map(
                vstd::utf8::encode_utf8(data@),
            )),
            r is Ok ==> exists|pairs: Seq<(String, String)>|
                #[trigger] keys_are_distinct(pairs) && rules_view(r->Ok_0.0@) == rules_of(pairs),
    {
        RewriteRules::parse(data.as_str())
    }
}

impl vstd::std_specs::convert::TryFromSpecImpl<String> for RewriteRules {
    open spec fn obeys_try_from_spec() -> bool {
        false
    }

    open spec fn try_from_spec(data: String) -> Result<RewriteRules, RewriteRulesError> {
        Err(RewriteRulesError(data))
    }
}

} // verus!
