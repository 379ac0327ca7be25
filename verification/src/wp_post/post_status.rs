//! The publication states of a post.

use vstd::prelude::*;

use crate::strings::str_eq;
use crate::value::{text_value, SqlValue};

verus! {

#[derive(Debug, PartialEq, Eq, Clone, Copy, Structural)]
pub enum PostStatus {
    Publish,
    Pending,
    Draft,
    AutoDraft,
    Future,
    Private,
    Inherit,
    Trash,
    /// Stands for every status: a filter on it restricts nothing.
    Any,
}

impl PostStatus {
    /// The status as the `post_status` column stores it.
    pub open spec fn text(self) -> Seq<char> {
        match self {
            Self::Publish => "publish"@,
            Self::Pending => "pending"@,
            Self::Draft => "draft"@,
            Self::AutoDraft => "auto-draft"@,
            Self::Future => "future"@,
            Self::Private => "private"@,
            Self::Inherit => "inherit"@,
            Self::Trash => "trash"@,
            Self::Any => "any"@,
        }
    }

    /// The status a stored text names; an unknown text names `Any`.
    pub open spec fn of_text(s: Seq<char>) -> PostStatus {
        if s == "publish"@ {
            Self::Publish
        } else if s == "pending"@ {
            Self::Pending
        } else if s == "draft"@ {
            Self::Draft
        } else if s == "auto-draft"@ {
            Self::AutoDraft
        } else if s == "future"@ {
            Self::Future
        } else if s == "private"@ {
            Self::Private
        } else if s == "inherit"@ {
            Self::Inherit
        } else if s == "trash"@ {
            Self::Trash
        } else {
            Self::Any
        }
    }

    pub fn val(&self) -> (r: &'static str)
        ensures
            r@ == self.text(),
    {
        match self {
            Self::Publish => "publish",
            Self::Pending => "pending",
            Self::Draft => "draft",
            Self::AutoDraft => "auto-draft",
            Self::Future => "future",
            Self::Private => "private",
            Self::Inherit => "inherit",
            Self::Trash => "trash",
            Self::Any => "any",
        }
    }

    pub fn to_string(&self) -> (r: String)
        ensures
            r@ == self.text(),
    {
        self.val().to_owned()
    }

    /// Reads a status from its stored text. Never fails: an unknown text
    /// gives `Any`.
    pub fn from_str(s: &str) -> (r: Result<PostStatus, ()>)
        ensures
            r == Ok::<PostStatus, ()>(Self::of_text(s@)),
    {
        let v = if str_eq(s, "publish") {
            Self::Publish
        } else if str_eq(s, "pending") {
            Self::Pending
        } else if str_eq(s, "draft") {
            Self::Draft
        } else if str_eq(s, "auto-draft") {
            Self::AutoDraft
        } else if str_eq(s, "future") {
            Self::Future
        } else if str_eq(s, "private") {
            Self::Private
        } else if str_eq(s, "inherit") {
            Self::Inherit
        } else if str_eq(s, "trash") {
            Self::Trash
        } else {
            Self::Any
        };
        Ok(v)
    }

    /// The value that binds this status to a placeholder.
    pub fn to_value(&self) -> (r: SqlValue)
        ensures
            r@ == text_value(self.text()),
    {
        SqlValue::from_text(self.val())
    }
}

impl std::str::FromStr for PostStatus {
    type Err = ();

    fn from_str(s: &str) -> (r: Result<Self, ()>)
        ensures
            r == Ok::<PostStatus, ()>(PostStatus::of_text(s@)),
    {
        PostStatus::from_str(s)
    }
}

impl From<String> for PostStatus {
    fn from(s: String) -> (r: PostStatus) {
        match PostStatus::from_str(s.as_str()) {
            Ok(v) => v,
            Err(_) => PostStatus::Any,
        }
    }
}

impl vstd::std_specs::convert::FromSpecImpl<String> for PostStatus {
    open spec fn obeys_from_spec() -> bool {
        true
    }

    open spec fn from_spec(s: String) -> PostStatus {
        PostStatus::of_text(s@)
    }
}

/// Every status is read back from its own stored text.
pub proof fn lemma_status_text_round_trip(status: PostStatus)
    ensures
        PostStatus::of_text(status.text()) == status,
{
    reveal_strlit("publish");
    reveal_strlit("pending");
    reveal_strlit("draft");
    reveal_strlit("auto-draft");
    reveal_strlit("future");
    reveal_strlit("private");
    reveal_strlit("inherit");
    reveal_strlit("trash");
    reveal_strlit("any");
    let s = status.text();
    assert(s.len() > 0);
    assert("publish"@[1] == 'u');
    assert("pending"@[1] == 'e');
    assert("draft"@[0] == 'd');
    assert("auto-draft"@[0] == 'a');
    assert("future"@[0] == 'f');
    assert("private"@[1] == 'r');
    assert("inherit"@[0] == 'i');
    assert("trash"@[0] == 't');
    assert("any"@[0] == 'a');
}

} // verus!
