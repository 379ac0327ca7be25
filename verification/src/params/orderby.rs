//! The columns a result can be sorted by.

use vstd::prelude::*;

use crate::strings::str_eq;

verus! {

#[derive(Debug, PartialEq, Eq, Clone, Copy, Structural)]
pub enum WpOrderBy {
    /// No column: the name written is empty.
    NoOrder,
    ID,
    Author,
    Title,
    Name,
    Type,
    Date,
    Modified,
    Parent,
    CommentCount,
    MetaValue,
    MetaValueNum,
}

impl WpOrderBy {
    /// The column as `ORDER BY` names it. Both custom-field orderings sort by
    /// `meta_value`.
    pub open spec fn text(self) -> Seq<char> {
        match self {
            Self::NoOrder => ""@,
            Self::ID => "ID"@,
            Self::Author => "post_author"@,
            Self::Title => "post_title"@,
            Self::Name => "post_name"@,
            Self::Type => "post_type"@,
            Self::Date => "post_date"@,
            Self::Modified => "post_modified"@,
            Self::Parent => "post_parent"@,
            Self::CommentCount => "comment_count"@,
            Self::MetaValue => "meta_value"@,
            Self::MetaValueNum => "meta_value"@,
        }
    }

    /// The ordering a name selects: a column name or its short form. An
    /// unknown name selects `NoOrder`.
    pub open spec fn of_name(s: Seq<char>) -> WpOrderBy {
        if s == "ID"@ || s == "id"@ {
            Self::ID
        } else if s == "post_author"@ || s == "author"@ {
            Self::Author
        } else if s == "post_title"@ || s == "title"@ {
            Self::Title
        } else if s == "post_name"@ || s == "name"@ || s == "slug"@ {
            Self::Name
        } else if s == "post_type"@ || s == "type"@ {
            Self::Type
        } else if s == "post_date"@ || s == "date"@ {
            Self::Date
        } else if s == "post_modified"@ || s == "modified"@ {
            Self::Modified
        } else if s == "post_parent"@ || s == "parent"@ {
            Self::Parent
        } else if s == "comment_count"@ {
            Self::CommentCount
        } else if s == "meta_value"@ {
            Self::MetaValue
        } else if s == "meta_value_num"@ {
            Self::MetaValueNum
        } else {
            Self::NoOrder
        }
    }

    pub fn val(&self) -> (r: &'static str)
        ensures
            r@ == self.text(),
    {
        match self {
            Self::NoOrder => "",
            Self::ID => "ID",
            Self::Author => "post_author",
            Self::Title => "post_title",
            Self::Name => "post_name",
            Self::Type => "post_type",
            Self::Date => "post_date",
            Self::Modified => "post_modified",
            Self::Parent => "post_parent",
            Self::CommentCount => "comment_count",
            Self::MetaValue => "meta_value",
            Self::MetaValueNum => "meta_value",
        }
    }

    pub fn to_string(&self) -> (r: String)
        ensures
            r@ == self.text(),
    {
        self.val().to_owned()
    }
}

impl From<&str> for WpOrderBy {
    fn from(s: &str) -> (r: WpOrderBy) {
        if str_eq(s, "ID") || str_eq(s, "id") {
            WpOrderBy::ID
        } else if str_eq(s, "post_author") || str_eq(s, "author") {
            WpOrderBy::Author
        } else if str_eq(s, "post_title") || str_eq(s, "title") {
            WpOrderBy::Title
        } else if str_eq(s, "post_name") || str_eq(s, "name") || str_eq(s, "slug") {
            WpOrderBy::Name
        } else if str_eq(s, "post_type") || str_eq(s, "type") {
            WpOrderBy::Type
        } else if str_eq(s, "post_date") || str_eq(s, "date") {
            WpOrderBy::Date
        } else if str_eq(s, "post_modified") || str_eq(s, "modified") {
            WpOrderBy::Modified
        } else if str_eq(s, "post_parent") || str_eq(s, "parent") {
            WpOrderBy::Parent
        } else if str_eq(s, "comment_count") {
            WpOrderBy::CommentCount
        } else if str_eq(s, "meta_value") {
            WpOrderBy::MetaValue
        } else if str_eq(s, "meta_value_num") {
            WpOrderBy::MetaValueNum
        } else {
            WpOrderBy::NoOrder
        }
    }
}

impl vstd::std_specs::convert::FromSpecImpl<&str> for WpOrderBy {
    open spec fn obeys_from_spec() -> bool {
        true
    }

    open spec fn from_spec(s: &str) -> WpOrderBy {
        WpOrderBy::of_name(s@)
    }
}

} // verus!
