//! Whether a comment has been approved.

use vstd::prelude::*;

verus! {

#[derive(Debug, PartialEq, Eq, Clone)]
pub enum CommentApproved {
    Approved,
    Hold,
    All,
    Custom(String),
}

} // verus!
