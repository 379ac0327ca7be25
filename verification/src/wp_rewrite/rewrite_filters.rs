//! Hooks by which a site changes its rewrite rules.

use vstd::prelude::*;

verus! {

/// The kinds of hook.
#[derive(Debug, PartialEq, Eq, Clone, Copy, Structural)]
pub enum RewriteFilters {
    PostRewriteRules,
}

} // verus!
