//! The kinds of comment.

use vstd::prelude::*;

verus! {

#[derive(Debug, PartialEq, Eq, Clone)]
pub enum CommentType {
    Comment,
    Pingback,
    Trackback,
    Custom(String),
}

} // verus!
