//! How the replies to a comment are returned with it.

use vstd::prelude::*;

verus! {

#[derive(Debug, PartialEq, Eq, Clone, Copy)]
pub enum Hierarchy {
    /// The tree of replies down to the given depth.
    Threaded(u8),
    /// The comments found and their replies in one flat list.
    Flat,
    /// No replies.
    False,
}

} // verus!
