//! What is returned of each comment found.

use vstd::prelude::*;

verus! {

#[derive(Debug, PartialEq, Eq, Clone, Copy, Structural)]
pub enum Fields {
    /// The whole comment.
    All,
    /// The comment's id alone.
    Ids,
}

} // verus!
