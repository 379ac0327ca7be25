//! Pretty addresses: how a path is turned into the query it stands for.

use vstd::prelude::*;

use self::permalink_structure::PermalinkStructure;
use self::rewrite_rule::RewriteRules;

pub mod parse_request;
pub mod pattern;
pub mod permalink_structure;
pub mod rewrite_code;
pub mod rewrite_filters;
pub mod rewrite_rule;
pub mod serialized;

pub use self::rewrite_code::RewriteCode;

verus! {

/// The settings by which a site writes and reads its addresses.
pub struct WpRewrite {
    /// The permalink structure, with tags such as `%year%` and `%post_id%`.
    pub permalink_structure: PermalinkStructure,
    /// What stands before the address of a category archive.
    pub category_base: String,
    /// The category base followed by `%category%`.
    pub category_structure: String,
    /// What stands before the address of an author archive.
    pub author_base: String,
    /// The author base followed by `%author%`.
    pub author_structure: String,
    /// What stands before a page number.
    pub pagination_base: String,
    /// The names of the feeds supported.
    pub feeds: String,
    /// What stands before the address of a feed.
    pub feed_base: String,
    /// The feed base followed by `%feed%`.
    pub feed_structure: String,
    /// What stands before a search.
    pub search_base: String,
    /// The search base followed by `%search%`.
    pub search_structure: String,
    /// What stands before the feed of the latest comments.
    pub comments_base: String,
    /// Comments base, feed base and `%feed%`.
    pub comments_feed_structure: String,
    /// The structure of dated archives.
    pub date_structure: String,
    /// The structure of pages.
    pub page_structure: String,
    /// What stands before the first tag of the permalink structure.
    pub front: String,
    /// The root of the site, put before every structure.
    pub root: String,
    /// The rewrite rules, once they have been fetched.
    pub rules: Option<RewriteRules>,
    /// Whether the rules are held to be fetched even though none are here.
    pub rules_init: bool,
}

impl WpRewrite {
    /// Whether these are the settings of a site that has set nothing: the
    /// usual bases, no structure, no rules.
    pub open spec fn is_default(self) -> bool {
        &&& self.permalink_structure.rewrite_codes is None
        &&& self.category_base@ == "category/"@
        &&& self.category_structure@.len() == 0
        &&& self.author_base@ == "author/"@
        &&& self.author_structure@.len() == 0
        &&& self.pagination_base@ == "page/"@
        &&& self.feeds@.len() == 0
        &&& self.feed_base@ == "feed/"@
        &&& self.feed_structure@.len() == 0
        &&& self.search_base@ == "search/"@
        &&& self.search_structure@.len() == 0
        &&& self.comments_base@ == "comments"@
        &&& self.comments_feed_structure@.len() == 0
        &&& self.date_structure@.len() == 0
        &&& self.page_structure@.len() == 0
        &&& self.front@.len() == 0
        &&& self.root@.len() == 0
        &&& self.rules is None
        &&& !self.rules_init
    }

    pub fn new() -> (r: Self)
        ensures
            r.is_default(),
    {
        Self {
            permalink_structure: PermalinkStructure::new(),
            category_base: "category/".to_owned(),
            category_structure: String::new(),
            author_base: "author/".to_owned(),
            author_structure: String::new(),
            pagination_base: "page/".to_owned(),
            feeds: String::new(),
            feed_base: "feed/".to_owned(),
            feed_structure: String::new(),
            search_base: "search/".to_owned(),
            search_structure: String::new(),
            comments_base: "comments".to_owned(),
            comments_feed_structure: String::new(),
            date_structure: String::new(),
            page_structure: String::new(),
            front: String::new(),
            root: String::new(),
            rules: None,
            rules_init: false,
        }
    }

    /// Sets what stands before the address of a category archive.
    pub fn set_category_base(&mut self, base: String)
        ensures
            *final(self) == (WpRewrite { category_base: base, ..*old(self) }),
    {
        self.category_base = base;
    }

    /// Whether the rules still have to be fetched: none are here and none
    /// are held to be fetched.
    pub fn needs_rules(&self) -> (r: bool)
        ensures
            r == (self.rules is None && !self.rules_init),
    {
        self.rules.is_none() && !self.rules_init
    }

    /// Keeps the rules that were fetched.
    pub fn set_rules(&mut self, rules: Option<RewriteRules>)
        ensures
            *final(self) == (WpRewrite { rules, ..*old(self) }),
    {
        self.rules = rules;
    }
}

} // verus!
