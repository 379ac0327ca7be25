//! The tags of a permalink structure.

use vstd::prelude::*;

use crate::strings::str_eq;
use crate::wp_rewrite::pattern::{pattern_compiles, regex_compiles};

verus! {

/// A tag of a permalink structure, such as `%year%`.
#[derive(Debug, PartialEq, Eq, Clone)]
pub enum RewriteCode {
    Year,
    Monthnum,
    Day,
    Hour,
    Minute,
    Second,
    Postname,
    PostId,
    Author,
    Pagename,
    Search,
    Category,
    Tag,
    /// A tag with a pattern of its own.
    Custom(String),
}

/// A text that is no tag.
#[derive(Debug, PartialEq, Eq, Clone)]
pub struct RewriteCodeError(pub String);

impl RewriteCodeError {
    /// The message: what went wrong and the text that was no tag.
    pub open spec fn message(self) -> Seq<char> {
        "Could not convert rewrite code: "@ + self.0@
    }

    pub fn to_string(&self) -> (r: String)
        ensures
            r@ == self.message(),
    {
        let mut out = "Could not convert rewrite code: ".to_owned();
        out.append(self.0.as_str());
        out
    }
}

impl RewriteCode {
    /// The pattern that matches what the tag stands for in a path.
    pub open spec fn pattern_text(self) -> Seq<char> {
        match self {
            Self::Year => "([0-9]{4})"@,
            Self::Monthnum => "([0-9]{1,2})"@,
            Self::Day => "([0-9]{1,2})"@,
            Self::Hour => "([0-9]{1,2})"@,
            Self::Minute => "([0-9]{1,2})"@,
            Self::Second => "([0-9]{1,2})"@,
            Self::Postname => "([^/]+)"@,
            Self::PostId => "([0-9]+)"@,
            Self::Category => "([^/]+)"@,
            Self::Author => "([^/]+)"@,
            Self::Pagename => "([^/]+?)"@,
            Self::Search => "(.+)"@,
            Self::Tag => "([^/]+)"@,
            Self::Custom(r) => r@,
        }
    }

    /// The tag's pattern.
    pub fn pattern(&self) -> (r: String)
        ensures
            r@ == self.pattern_text(),
    {
        match self {
            Self::Year => "([0-9]{4})".to_owned(),
            Self::Monthnum => "([0-9]{1,2})".to_owned(),
            Self::Day => "([0-9]{1,2})".to_owned(),
            Self::Hour => "([0-9]{1,2})".to_owned(),
            Self::Minute => "([0-9]{1,2})".to_owned(),
            Self::Second => "([0-9]{1,2})".to_owned(),
            Self::Postname => "([^/]+)".to_owned(),
            Self::PostId => "([0-9]+)".to_owned(),
            Self::Category => "([^/]+)".to_owned(),
            Self::Author => "([^/]+)".to_owned(),
            Self::Pagename => "([^/]+?)".to_owned(),
            Self::Search => "(.+)".to_owned(),
            Self::Tag => "([^/]+)".to_owned(),
            Self::Custom(r) => r.clone(),
        }
    }

    /// The tag's pattern, if it is a regular expression; a custom tag may
    /// carry one that is not.
    pub fn to_regex(self) -> (r: Option<String>)
        ensures
            r is Some <==> pattern_compiles(self.pattern_text()),
            r is Some ==> r->0@ == self.pattern_text(),
    {
        let pattern = self.pattern();
        if regex_compiles(pattern.as_str()) {
            Some(pattern)
        } else {
            None
        }
    }

    /// Whether this is the tag that the text `s` writes. `%pagename%` and
    /// `%search%` are not read, nor is any custom tag.
    pub open spec fn is_written(self, s: Seq<char>) -> bool {
        if s == "%year%"@ {
            self == Self::Year
        } else if s == "%monthnum%"@ {
            self == Self::Monthnum
        } else if s == "%day%"@ {
            self == Self::Day
        } else if s == "%hour%"@ {
            self == Self::Hour
        } else if s == "%minute%"@ {
            self == Self::Minute
        } else if s == "%second%"@ {
            self == Self::Second
        } else if s == "%post_id%"@ {
            self == Self::PostId
        } else if s == "%postname%"@ {
            self == Self::Postname
        } else if s == "%category%"@ {
            self == Self::Category
        } else if s == "%author%"@ {
            self == Self::Author
        } else if s == "%tag%"@ {
            self == Self::Tag
        } else {
            false
        }
    }

    /// Whether the text writes a tag.
    pub open spec fn is_tag(s: Seq<char>) -> bool {
        s == "%year%"@ || s == "%monthnum%"@ || s == "%day%"@ || s == "%hour%"@ || s
            == "%minute%"@ || s == "%second%"@ || s == "%post_id%"@ || s == "%postname%"@ || s
            == "%category%"@ || s == "%author%"@ || s == "%tag%"@
    }

    /// Reads a tag. A text that writes none comes back in the error.
    pub fn parse(s: &str) -> (r: Result<RewriteCode, RewriteCodeError>)
        ensures
            r is Ok <==> Self::is_tag(s@),
            r is Ok ==> r->Ok_0.is_written(s@),
            r is Err ==> r->Err_0.0@ == s@,
    {
        if str_eq(s, "%year%") {
            Ok(RewriteCode::Year)
        } else if str_eq(s, "%monthnum%") {
            Ok(RewriteCode::Monthnum)
        } else if str_eq(s, "%day%") {
            Ok(RewriteCode::Day)
        } else if str_eq(s, "%hour%") {
            Ok(RewriteCode::Hour)
        } else if str_eq(s, "%minute%") {
            Ok(RewriteCode::Minute)
        } else if str_eq(s, "%second%") {
            Ok(RewriteCode::Second)
        } else if str_eq(s, "%post_id%") {
            Ok(RewriteCode::PostId)
        } else if str_eq(s, "%postname%") {
            Ok(RewriteCode::Postname)
        } else if str_eq(s, "%category%") {
            Ok(RewriteCode::Category)
        } else if str_eq(s, "%author%") {
            Ok(RewriteCode::Author)
        } else if str_eq(s, "%tag%") {
            Ok(RewriteCode::Tag)
        } else {
            Err(RewriteCodeError(s.to_owned()))
        }
    }
}

impl TryFrom<&str> for RewriteCode {
    type Error = RewriteCodeError;

    fn try_from(s: &str) -> (r: Result<RewriteCode, RewriteCodeError>)
        ensures
            r is Ok <==> RewriteCode::is_tag(s@),
            r is Ok ==> r->Ok_0.is_written(s@),
            r is Err ==> r->Err_0.0@ == s@,
    {
        RewriteCode::parse(s)
    }
}

impl vstd::std_specs::convert::TryFromSpecImpl<&str> for RewriteCode {
    open spec fn obeys_try_from_spec() -> bool {
        false
    }

    open spec fn try_from_spec(s: &str) -> Result<RewriteCode, RewriteCodeError> {
        Ok(RewriteCode::Year)
    }
}

} // verus!
