//! The columns a list of comments can be sorted by.

use vstd::prelude::*;

verus! {

#[derive(Debug, PartialEq, Eq, Clone)]
pub enum Orderby {
    Agent,
    Approved,
    Author,
    AuthorEmail,
    AuthorIp,
    AuthorUrl,
    Content,
    Date,
    DateGmt,
    Id,
    Karma,
    Parent,
    PostId,
    Type,
    UserId,
    MetaValue(String),
    MetaKey(String),
    /// No column: the name written is empty.
    NoOrder,
}

impl Orderby {
    /// The column as `ORDER BY` names it; a custom-field ordering is written
    /// as the text it carries.
    pub open spec fn text(self) -> Seq<char> {
        match self {
            Self::Agent => "comment_agent"@,
            Self::Approved => "comment_approved"@,
            Self::Author => "comment_author"@,
            Self::AuthorEmail => "comment_author_email"@,
            Self::AuthorIp => "comment_author_IP"@,
            Self::AuthorUrl => "comment_author_url"@,
            Self::Content => "comment_content"@,
            Self::Date => "comment_date"@,
            Self::DateGmt => "comment_date_gmt"@,
            Self::Id => "comment_ID"@,
            Self::Karma => "comment_karma"@,
            Self::MetaKey(s) => s@,
            Self::MetaValue(s) => s@,
            Self::NoOrder => ""@,
            Self::Parent => "comment_parent"@,
            Self::PostId => "comment_post_ID"@,
            Self::Type => "comment_type"@,
            Self::UserId => "user_id"@,
        }
    }

    pub fn to_string(&self) -> (r: String)
        ensures
            r@ == self.text(),
    {
        match self {
            Self::Agent => "comment_agent".to_owned(),
            Self::Approved => "comment_approved".to_owned(),
            Self::Author => "comment_author".to_owned(),
            Self::AuthorEmail => "comment_author_email".to_owned(),
            Self::AuthorIp => "comment_author_IP".to_owned(),
            Self::AuthorUrl => "comment_author_url".to_owned(),
            Self::Content => "comment_content".to_owned(),
            Self::Date => "comment_date".to_owned(),
            Self::DateGmt => "comment_date_gmt".to_owned(),
            Self::Id => "comment_ID".to_owned(),
            Self::Karma => "comment_karma".to_owned(),
            Self::MetaKey(s) => s.clone(),
            Self::MetaValue(s) => s.clone(),
            Self::NoOrder => "".to_owned(),
            Self::Parent => "comment_parent".to_owned(),
            Self::PostId => "comment_post_ID".to_owned(),
            Self::Type => "comment_type".to_owned(),
            Self::UserId => "user_id".to_owned(),
        }
    }
}

} // verus!
