use url::Url;
use wp_query_rs::wp_rewrite::parse_request::{
    apply_query_var, get_home_path_regex, params_from_query_pairs, path_info, rewrite_request,
    QueryVarError,
    Rewritten, WpParseError,
};
use wp_query_rs::wp_rewrite::permalink_structure::{
    PermalinkStructure, PermalinkStructureParseError,
};
use wp_query_rs::wp_rewrite::rewrite_code::RewriteCodeError;
use wp_query_rs::wp_rewrite::rewrite_filters::RewriteFilters;
use wp_query_rs::wp_rewrite::rewrite_rule::{Priority, RewriteRule, RewriteRules};
use wp_query_rs::wp_rewrite::{RewriteCode, WpRewrite};
use wp_query_rs::{ParamBuilder, Params, PostType};

fn rule(regex: &str, query: &str, param_count: usize) -> RewriteRule {
    RewriteRule {
        regex: String::from(regex),
        query: String::from(query),
        param_count,
        after: Priority::Bottom,
    }
}

fn get_rewrite_dummy() -> WpRewrite {
    let mut rewrite = WpRewrite::new();
    rewrite.rules = Some(RewriteRules(vec![
        rule("category/(.+?)/?$", "index.php?category_name=$matches[1]", 1),
        rule("author/([^/]+)/?$", "index.php?author_name=$matches[1]", 1),
        rule("([0-9]{4})/?$", "index.php?year=$matches[1]", 1),
        rule(
            "([0-9]{4})/([0-9]{1,2})/([^/]+)(?:/([0-9]+))?/?$",
            "index.php?year=$matches[1]&monthnum=$matches[2]&name=$matches[3]&page=$matches[4]",
            4,
        ),
        rule("(.?.+?)(?:/([0-9]+))?/?$", "index.php?pagename=$matches[1]&page=$matches[2]", 2),
    ]));
    rewrite
}

fn parse_request(rewrite: &WpRewrite, url: Url) -> Result<Url, WpParseError> {
    match rewrite_request(rewrite, url.path(), url.query())? {
        Rewritten::Unchanged => Ok(url),
        Rewritten::IndexPhp(query) => {
            let mut parsed = url.clone();
            parsed.set_path("index.php");
            parsed.set_query(Some(&query));
            Ok(parsed)
        }
    }
}

fn pairs_of(url: &Url) -> Vec<(String, String)> {
    url.query_pairs().map(|(k, v)| (k.into_owned(), v.into_owned())).collect()
}

fn borrowed(pairs: &[(String, String)]) -> Vec<(&str, &str)> {
    pairs.iter().map(|(k, v)| (k.as_str(), v.as_str())).collect()
}

#[test]
fn can_rewrite_default() {
    let url = Url::parse("http://localhost:8080/?p=123").unwrap();

    let mut rewrite = WpRewrite::new();
    rewrite.rules_init = true;

    let parsed = parse_request(&rewrite, url).unwrap();
    let pairs = pairs_of(&parsed);
    let params = params_from_query_pairs(&borrowed(&pairs)).unwrap();

    assert_eq!(params.p, Some(123));
}

#[test]
fn return_path_if_no_php() {
    let url = Url::parse("http://www.example.com/php/some/stuff?foo=bar").unwrap();
    let path_info = path_info(url.path());

    assert_eq!(path_info, "php/some/stuff")
}

#[test]
fn return_path_after_php() {
    let url = Url::parse("http://www.example.com/php/path_info.php/some/stuff?foo=bar").unwrap();
    let path_info = path_info(url.path());

    assert_eq!(path_info, "some/stuff")
}

#[test]
fn path_info_cuts_at_the_first_php() {
    assert_eq!(path_info("/a.php/b.php/c/"), "b.php/c");
    assert_eq!(path_info("///"), "");
    assert_eq!(path_info(""), "");
    assert_eq!(path_info("/index.php"), "");
}

#[test]
fn can_rewrite_blog_post() {
    let rewrite = get_rewrite_dummy();

    let url = Url::parse("http://localhost:8080/2023/09/my-test-meta-post-1695016100/").unwrap();

    let parsed = parse_request(&rewrite, url).unwrap();

    assert!(parsed
        .query_pairs()
        .find(|(key, v)| key == "name" && v == "my-test-meta-post-1695016100")
        .is_some());
    assert!(parsed.query_pairs().find(|(key, _)| key == "page").is_none());
    assert_eq!(parsed.path(), "/index.php");
    assert_eq!(
        parsed.query(),
        Some("year=2023&monthnum=09&name=my-test-meta-post-1695016100")
    );
}

#[test]
fn can_parse_request_into_params() {
    let rewrite = get_rewrite_dummy();

    let url = Url::parse("http://localhost:8080/2023/09/my-test-meta-post-1695016100/").unwrap();

    let parsed = parse_request(&rewrite, url).unwrap();

    let pairs = pairs_of(&parsed);
    let params = params_from_query_pairs(&borrowed(&pairs)).unwrap();

    assert_eq!(params.monthnum, Some(9));
    assert_eq!(params.year, Some(2023));
    assert_eq!(params.name, Some("my-test-meta-post-1695016100"));
}

#[test]
fn can_parse_archive_page_into_params() {
    let rewrite = get_rewrite_dummy();

    let url = Url::parse("http://localhost:8080/category/derbies/").unwrap();

    let parsed = parse_request(&rewrite, url).unwrap();

    let pairs = pairs_of(&parsed);
    let params = params_from_query_pairs(&borrowed(&pairs)).unwrap();

    assert_eq!(params.term_slug_and, Some(vec!["derbies"]));
}

#[test]
fn can_parse_author_page() {
    let rewrite = get_rewrite_dummy();

    let url = Url::parse("http://localhost:8080/author/admin/").unwrap();

    let parsed = parse_request(&rewrite, url).unwrap();

    let pairs = pairs_of(&parsed);
    let params = params_from_query_pairs(&borrowed(&pairs)).unwrap();

    assert_eq!(params.author_name, Some("admin"));
}

#[test]
fn request_without_rules_needs_a_post_id() {
    let rewrite = WpRewrite::new();
    assert_eq!(rewrite_request(&rewrite, "/", Some("p=5")), Ok(Rewritten::Unchanged));
    assert_eq!(rewrite_request(&rewrite, "/", Some("q=5")), Err(WpParseError {}));
    assert_eq!(rewrite_request(&rewrite, "/", None), Err(WpParseError {}));
    assert_eq!(WpParseError {}.to_string(), "Could not parse request");
}

#[test]
fn request_that_no_rule_matches_is_an_error() {
    let mut rewrite = WpRewrite::new();
    rewrite.set_rules(Some(RewriteRules(vec![rule(
        "author/([^/]+)/?$",
        "index.php?author_name=$matches[1]",
        1,
    )])));
    assert!(!rewrite.needs_rules());
    assert_eq!(rewrite_request(&rewrite, "/tag/x/", Some("p=5")), Err(WpParseError {}));
    assert_eq!(
        rewrite_request(&rewrite, "/author/ann/", None),
        Ok(Rewritten::IndexPhp(String::from("author_name=ann")))
    );
}

#[test]
fn query_variables_are_applied_in_order() {
    let pairs = vec![
        ("post_type", "page"),
        ("post_type", "book"),
        ("pagename", "about"),
        ("category_name", "news"),
        ("unknown", "x"),
        ("p", "42"),
    ];
    let params = params_from_query_pairs(&pairs).unwrap();
    assert_eq!(
        params.post_type,
        Some(vec![PostType::Page, PostType::CustomPostType(String::from("book"))])
    );
    assert_eq!(params.name, Some("about"));
    assert_eq!(params.term_slug_and, Some(vec!["news"]));
    assert_eq!(params.p, Some(42));
    let none: Vec<(&str, &str)> = vec![];
    let blank: Params = params_from_query_pairs(&none).unwrap();
    assert!(blank.p.is_none() && blank.post_type.is_none());
}

#[test]
fn bad_query_variables_are_errors() {
    let not_a_number = params_from_query_pairs(&vec![("name", "a"), ("p", "seven"), ("p", "7")]);
    assert_eq!(not_a_number.err(), Some(QueryVarError::NotANumber));
    assert_eq!(
        params_from_query_pairs(&vec![("year", "10000")]).err(),
        Some(QueryVarError::OutOfRange)
    );
    assert_eq!(
        params_from_query_pairs(&vec![("monthnum", "0")]).err(),
        Some(QueryVarError::OutOfRange)
    );
    assert_eq!(
        params_from_query_pairs(&vec![("monthnum", "13")]).err(),
        Some(QueryVarError::OutOfRange)
    );
    assert_eq!(
        params_from_query_pairs(&vec![("year", "-1")]).err(),
        Some(QueryVarError::NotANumber)
    );
    assert_eq!(
        params_from_query_pairs(&vec![("p", "99999999999999999999999")]).err(),
        Some(QueryVarError::NotANumber)
    );
    let b = apply_query_var(ParamBuilder::new(), "year", "9999").unwrap();
    assert_eq!(b.0.year, Some(9999));
    let b = apply_query_var(b, "monthnum", "12").unwrap();
    assert_eq!(b.0.monthnum, Some(12));
}

#[test]
fn permalink_structure_can_convert_from_mysql_value() {
    let s = String::from("/%year%/%monthnum%/%postname%/");

    let sructure = <&str as TryInto<PermalinkStructure>>::try_into(s.as_str());

    assert_eq!(
        sructure.unwrap(),
        PermalinkStructure {
            rewrite_codes: Some(vec![
                RewriteCode::Year,
                RewriteCode::Monthnum,
                RewriteCode::Postname
            ])
        }
    )
}

#[test]
fn permalink_structure_rejects_what_is_no_tag() {
    assert_eq!(
        PermalinkStructure::parse("/%year%/archive/%nope%/"),
        Err(PermalinkStructureParseError(String::from(
            "Could not convert rewrite code: archive"
        )))
    );
    assert_eq!(
        PermalinkStructureParseError(String::from("x")).to_string(),
        "Could not parse structure: x"
    );
    assert_eq!(
        PermalinkStructure::parse(""),
        Ok(PermalinkStructure { rewrite_codes: Some(vec![]) })
    );
    assert_eq!(
        PermalinkStructure::parse("//%tag%//"),
        Ok(PermalinkStructure { rewrite_codes: Some(vec![RewriteCode::Tag]) })
    );
    assert_eq!(PermalinkStructure::new().rewrite_codes, None);
    assert_eq!(
        PermalinkStructure::from_parts(&vec!["", "%day%", ""]),
        Ok(PermalinkStructure { rewrite_codes: Some(vec![RewriteCode::Day]) })
    );
}

#[test]
fn can_get_regex() {
    let code = RewriteCode::Monthnum;
    let regex = regex::Regex::new(&code.to_regex().unwrap());

    let m = regex
        .unwrap()
        .find("12")
        .map(|m| -> u8 { m.as_str().parse().unwrap() });

    assert_eq!(m, Some(12));
}

#[test]
fn custom_code_needs_a_pattern_that_compiles() {
    assert_eq!(RewriteCode::Custom(String::from("([a-z]+)")).to_regex(), Some(String::from("([a-z]+)")));
    assert_eq!(RewriteCode::Custom(String::from("([a-z]+")).to_regex(), None);
    assert_eq!(RewriteCode::Year.pattern(), "([0-9]{4})");
    assert_eq!(RewriteCode::Pagename.pattern(), "([^/]+?)");
    assert_eq!(RewriteCode::Search.pattern(), "(.+)");
    assert_eq!(RewriteCode::PostId.pattern(), "([0-9]+)");
}

#[test]
fn can_convert_from_string() {
    assert_eq!(
        <&str as TryInto<RewriteCode>>::try_into("%year%").unwrap(),
        RewriteCode::Year
    );
    assert_eq!(
        <&str as TryInto<RewriteCode>>::try_into("%monthnum%").unwrap(),
        RewriteCode::Monthnum
    );
    assert_eq!(
        <&str as TryInto<RewriteCode>>::try_into("%day%").unwrap(),
        RewriteCode::Day
    );
    assert_eq!(
        <&str as TryInto<RewriteCode>>::try_into("%hour%").unwrap(),
        RewriteCode::Hour
    );
    assert_eq!(
        <&str as TryInto<RewriteCode>>::try_into("%minute%").unwrap(),
        RewriteCode::Minute
    );
    assert_eq!(
        <&str as TryInto<RewriteCode>>::try_into("%second%").unwrap(),
        RewriteCode::Second
    );
    assert_eq!(
        <&str as TryInto<RewriteCode>>::try_into("%post_id%").unwrap(),
        RewriteCode::PostId
    );
    assert_eq!(
        <&str as TryInto<RewriteCode>>::try_into("%postname%").unwrap(),
        RewriteCode::Postname
    );
    assert_eq!(
        <&str as TryInto<RewriteCode>>::try_into("%category%").unwrap(),
        RewriteCode::Category
    );
    assert_eq!(
        <&str as TryInto<RewriteCode>>::try_into("%author%").unwrap(),
        RewriteCode::Author
    );
    assert_eq!(
        <&str as TryInto<RewriteCode>>::try_into("%tag%").unwrap(),
        RewriteCode::Tag
    );
}

#[test]
fn unknown_code_is_an_error() {
    let e = RewriteCode::parse("%pagename%").unwrap_err();
    assert_eq!(e, RewriteCodeError(String::from("%pagename%")));
    assert_eq!(e.to_string(), "Could not convert rewrite code: %pagename%");
    assert!(RewriteCode::parse("year").is_err());
}

#[test]
fn can_get_query_key_value_pairs() {
    let rr = rule(
        "([0-9]{4})/([0-9]{1,2})/([^/]+)(?:/([0-9]+))?/?$",
        "index.php?year=$matches[1]&monthnum=$matches[2]&name=$matches[3]&page=$matches[4]",
        4,
    );

    let key_value_pairs = rr.get_query_keys();

    assert_eq!(key_value_pairs.len(), 4);
    assert_eq!(key_value_pairs[0], "year");
    assert_eq!(key_value_pairs[1], "monthnum");
    assert_eq!(key_value_pairs[2], "name");
    assert_eq!(key_value_pairs[3], "page");
}

#[test]
fn replace_writes_the_pairs_that_were_captured() {
    let rr = rule(
        "([0-9]{4})/([0-9]{1,2})/([^/]+)(?:/([0-9]+))?/?$",
        "index.php?year=$matches[1]&monthnum=$matches[2]&name=$matches[3]&page=$matches[4]",
        4,
    );
    assert_eq!(
        rr.replace("2023/11/my-post-name"),
        Some(String::from("year=2023&monthnum=11&name=my-post-name"))
    );
    assert_eq!(
        rr.replace("2023/11/my-post-name/2"),
        Some(String::from("year=2023&monthnum=11&name=my-post-name&page=2"))
    );
    assert_eq!(rr.replace("about"), None);
    assert_eq!(rule("(", "index.php?a=$matches[1]", 1).replace("x"), None);
    let skipping = rule("(?:(a)|b)(c)", "index.php?first=$matches[1]&second=$matches[2]", 2);
    assert_eq!(skipping.replace("bc"), Some(String::from("&second=c")));
}

#[test]
fn query_string_pairs_keys_with_groups() {
    let keys = vec![String::from("a"), String::from("b"), String::from("c")];
    let groups = vec![Some(String::from("whole")), Some(String::from("1")), None];
    assert_eq!(RewriteRule::query_string(&keys, &groups), "a=1");
    assert_eq!(RewriteRule::query_string(&keys, &vec![]), "");
    assert_eq!(RewriteRule::query_string(&vec![], &groups), "");
}

#[test]
fn base_rules_take_precedence() {
    let rewrite = WpRewrite::new();
    let rules = RewriteRules(vec![
        rule("(.+?)/?$", "index.php?pagename=$matches[1]&a=$matches[2]&b=$matches[3]", 3),
        rule("author/([^/]+)/?$", "index.php?author_name=$matches[1]", 1),
        rule("author/([^/]+)/page/?([0-9]{1,})/?$", "index.php?author_name=$matches[1]&paged=$matches[2]", 2),
        rule("(.+)$", "index.php?s=$matches[1]", 1),
    ]);
    assert!(rules.0[1].is_base(&rewrite));
    assert!(!rules.0[0].is_base(&rewrite));
    assert_eq!(rules.find_match("author/ann", &rewrite).unwrap().regex, "author/([^/]+)/?$");
    assert_eq!(
        rules.find_match("author/ann/page/2", &rewrite).unwrap().regex,
        "author/([^/]+)/page/?([0-9]{1,})/?$"
    );
    assert_eq!(rules.find_match("about", &rewrite).unwrap().regex, "(.+?)/?$");
    assert!(RewriteRules(vec![]).find_match("about", &rewrite).is_none());
    assert_eq!(rules.most_specific(&vec![true, true, false, true], &rewrite), Some(1));
    assert_eq!(rules.most_specific(&vec![true, false, false, true], &rewrite), Some(0));
    assert_eq!(rules.most_specific(&vec![false, false, false, true], &rewrite), Some(3));
    assert_eq!(rules.most_specific(&vec![false, false, false, false], &rewrite), None);
}

#[test]
fn category_base_can_be_set() {
    let mut rewrite = WpRewrite::new();
    assert!(rewrite.needs_rules());
    assert_eq!(rewrite.category_base, "category/");
    assert_eq!(rewrite.author_base, "author/");
    assert_eq!(rewrite.pagination_base, "page/");
    assert_eq!(rewrite.feed_base, "feed/");
    assert_eq!(rewrite.search_base, "search/");
    assert_eq!(rewrite.comments_base, "comments");
    rewrite.set_category_base(String::from("topics/"));
    assert_eq!(rewrite.category_base, "topics/");
    let topic = rule("topics/(.+?)/?$", "index.php?category_name=$matches[1]", 1);
    assert!(topic.is_base(&rewrite));
    assert_eq!(RewriteFilters::PostRewriteRules, RewriteFilters::PostRewriteRules);
}

#[test]
fn can_deserialize() {
    let db_res = String::from("a:3:{s:17:\"author/([^/]+)/?$\";s:33:\"index.php?author_name=$matches[1]\";s:26:\"([0-9]{4})/([0-9]{1,2})/?$\";s:47:\"index.php?year=$matches[1]&monthnum=$matches[2]\";s:7:\"broken(\";s:23:\"index.php?x=$matches[1]\";}");

    let rewrite_rules: RewriteRules = db_res.try_into().unwrap();

    assert_eq!(rewrite_rules.0.len(), 2);
    let author = rewrite_rules.0.iter().find(|r| r.regex == "author/([^/]+)/?$").unwrap();
    assert_eq!(author.query, "index.php?author_name=$matches[1]");
    assert_eq!(author.param_count, 1);
    assert_eq!(author.after, Priority::Bottom);
    let dated = rewrite_rules.0.iter().find(|r| r.regex == "([0-9]{4})/([0-9]{1,2})/?$").unwrap();
    assert_eq!(dated.param_count, 2);
}

#[test]
fn what_is_no_serialised_map_is_an_error() {
    let e = RewriteRules::parse("not php").unwrap_err();
    assert!(!e.0.is_empty());
    assert!(RewriteRules::parse("a:0:{}").unwrap().0.is_empty());
    let pairs = vec![
        (String::from("x("), String::from("index.php?a=$matches[1]")),
        (String::from("x"), String::from("index.php?a=$matches[1]&b=$matches[2]")),
    ];
    let rules = RewriteRules::from_pairs(&pairs);
    assert_eq!(rules.0.len(), 1);
    assert_eq!(rules.0[0].regex, "x");
    assert_eq!(rules.0[0].param_count, 2);
}

#[test]
fn home_path_pattern_wraps_the_path() {
    assert_eq!(get_home_path_regex(Some("blog")), Some(String::from("|^blog|i")));
    assert_eq!(get_home_path_regex(Some("(")), None);
    assert_eq!(get_home_path_regex(None), None);
}

#[test]
fn declared_length_beyond_the_data_is_refused() {
    let e = RewriteRules::parse("a:1:{s:18446744073709551615:\"").unwrap_err();
    assert_eq!(e.0, "A string is declared longer than the data that follows it");
    assert!(RewriteRules::parse("a:1:{s:4:\"abc\";s:1:\"x\";}").is_err());
    assert!(RewriteRules::parse("a:1:{s:3:\"abc\";s:9:\"x\";}").is_err());
    assert!(RewriteRules::parse("a:1:{s:99999999999999999999999999:\"abc\";}").is_err());
    assert!(RewriteRules::try_from(String::from("a:2:{s:1:\"a\";s:1:\"b\";s:7:\"c")).is_err());
    let rules = RewriteRules::parse("a:1:{s:3:\"abc\";s:1:\"x\";}").unwrap();
    assert_eq!(rules.0.len(), 1);
    assert_eq!(rules.0[0].regex, "abc");
    assert_eq!(rules.0[0].query, "x");
}

#[test]
fn declared_lengths_are_checked_along_the_grammar() {
    let fits = |s: &str| wp_query_rs::wp_rewrite::serialized::declared_lengths_fit(s.as_bytes());
    assert!(fits(""));
    assert!(fits("not php"));
    assert!(fits("a:0:{}"));
    assert!(fits("a:1:{s:3:\"abc\";s:1:\"x\";}"));
    assert!(fits("a:1:{s:0:\"\";s:0:\"\";}"));
    assert!(fits("a:1:{s:3:\"abc\";s:1:\"x\";} trailing s:99:\""));
    assert!(fits("a:1:{i:0;s:99:\"x\";}"));
    assert!(fits("a:1:{s:3:\"abcd\";s:99:\"x\";}"));
    assert!(fits("a:9:{s:1:\"a\";s:1:\"b\";}"));
    assert!(fits("a:99999999999999999999999:{s:1:\"a\";s:1:\"b\";}"));
    assert!(!fits("a:1:{s:4:\"abc"));
    assert!(!fits("a:1:{s:18446744073709551615:\""));
    assert!(!fits("a:1:{s:3:\"abc\";s:2:\"x"));
    assert!(!fits("a:2:{s:1:\"a\";s:1:\"b\";s:1:\"c\";s:5:\"d\";}"));
    assert!(!fits("a:99999999999999999999999:{s:1:\"a\";s:1:\"b\";s:3:\"c"));
    assert!(fits("a:1:{s:1:\"a\";s:1:\"b\";s:100:\"c"));
    assert!(fits("a:1:{s:5:\"héé\";s:1:\"b\";}"));
}

#[test]
fn rule_parameters_are_counted_without_overlap() {
    let pairs = vec![
        (String::from("a"), String::from("$matches$matches[1]$match$matches")),
        (String::from("b"), String::from("index.php")),
    ];
    let rules = RewriteRules::from_pairs(&pairs);
    assert_eq!(rules.0[0].param_count, 3);
    assert_eq!(rules.0[1].param_count, 0);
}

#[test]
fn numbers_may_carry_a_plus_sign() {
    assert_eq!(params_from_query_pairs(&vec![("p", "+42")]).unwrap().p, Some(42));
    assert_eq!(params_from_query_pairs(&vec![("p", "007")]).unwrap().p, Some(7));
    assert_eq!(
        params_from_query_pairs(&vec![("p", "18446744073709551615")]).unwrap().p,
        Some(u64::MAX)
    );
    for bad in ["", "+", "++1", "-1", " 1", "1 ", "1_0", "18446744073709551616", "٣"] {
        assert_eq!(
            params_from_query_pairs(&vec![("p", bad)]).err(),
            Some(QueryVarError::NotANumber)
        );
    }
}
