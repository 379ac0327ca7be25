//! The kinds of entry the posts table holds.

use vstd::prelude::*;

use crate::strings::str_eq;

verus! {

#[derive(Debug, Clone)]
pub enum PostType {
    Post,
    Page,
    Revision,
    Attachment,
    NavMenuItem,
    /// A type registered under a name of its own.
    CustomPostType(String),
}

impl PostType {
    /// The type as the `post_type` column stores it.
    pub open spec fn text(self) -> Seq<char> {
        match self {
            Self::Post => "post"@,
            Self::Page => "page"@,
            Self::Revision => "revision"@,
            Self::Attachment => "attachment"@,
            Self::NavMenuItem => "nav_menu_item"@,
            Self::CustomPostType(s) => s@,
        }
    }

    /// Whether this is the type that the stored name `s` stands for: one of
    /// the five built-in types under its own name, a custom type under any
    /// other.
    pub open spec fn is_named(self, s: Seq<char>) -> bool {
        if s == "post"@ {
            self == Self::Post
        } else if s == "page"@ {
            self == Self::Page
        } else if s == "revision"@ {
            self == Self::Revision
        } else if s == "attachment"@ {
            self == Self::Attachment
        } else if s == "nav_menu_item"@ {
            self == Self::NavMenuItem
        } else {
            self is CustomPostType && self->CustomPostType_0@ == s
        }
    }

    pub fn to_string(&self) -> (r: String)
        ensures
            r@ == self.text(),
    {
        match self {
            Self::Post => "post".to_owned(),
            Self::Page => "page".to_owned(),
            Self::Revision => "revision".to_owned(),
            Self::Attachment => "attachment".to_owned(),
            Self::NavMenuItem => "nav_menu_item".to_owned(),
            Self::CustomPostType(s) => s.clone(),
        }
    }

    /// The UTF-8 bytes of the stored name.
    pub fn into_bytes(self) -> (r: Vec<u8>)
        ensures
            r@ == vstd::utf8::encode_utf8(self.text()),
    {
        let name = self.to_string();
        name.as_str().as_bytes_vec()
    }
}

impl PartialEq for PostType {
    fn eq(&self, other: &Self) -> (r: bool) {
        match (self, other) {
            (PostType::Post, PostType::Post) => true,
            (PostType::Page, PostType::Page) => true,
            (PostType::Revision, PostType::Revision) => true,
            (PostType::Attachment, PostType::Attachment) => true,
            (PostType::NavMenuItem, PostType::NavMenuItem) => true,
            (PostType::CustomPostType(a), PostType::CustomPostType(b)) => *a == *b,
            _ => false,
        }
    }
}

impl vstd::std_specs::cmp::PartialEqSpecImpl for PostType {
    open spec fn obeys_eq_spec() -> bool {
        true
    }

    open spec fn eq_spec(&self, other: &Self) -> bool {
        match (self, other) {
            (PostType::Post, PostType::Post) => true,
            (PostType::Page, PostType::Page) => true,
            (PostType::Revision, PostType::Revision) => true,
            (PostType::Attachment, PostType::Attachment) => true,
            (PostType::NavMenuItem, PostType::NavMenuItem) => true,
            (PostType::CustomPostType(a), PostType::CustomPostType(b)) => a@ == b@,
            _ => false,
        }
    }
}

impl Eq for PostType {

}

impl From<&str> for PostType {
    /// Reads a type from its stored name.
    fn from(value: &str) -> (r: PostType)
        ensures
            r.is_named(value@),
    {
        if str_eq(value, "post") {
            PostType::Post
        } else if str_eq(value, "page") {
            PostType::Page
        } else if str_eq(value, "revision") {
            PostType::Revision
        } else if str_eq(value, "attachment") {
            PostType::Attachment
        } else if str_eq(value, "nav_menu_item") {
            PostType::NavMenuItem
        } else {
            PostType::CustomPostType(value.to_owned())
        }
    }
}

impl vstd::std_specs::convert::FromSpecImpl<&str> for PostType {
    open spec fn obeys_from_spec() -> bool {
        false
    }

    open spec fn from_spec(value: &str) -> PostType {
        PostType::Post
    }
}

/// A type read from a name is stored under that name again.
pub proof fn lemma_post_type_keeps_its_name(post_type: PostType, s: Seq<char>)
    requires
        post_type.is_named(s),
    ensures
        post_type.text() == s,
{
}

} // verus!
