//! The posts a query found.

use vstd::prelude::*;

use crate::wp_post::WpPost;

verus! {

#[allow(non_camel_case_types)]
pub type WP_Post = WpPost;

#[allow(non_camel_case_types)]
pub type WP_Query = WpQuery;

/// The posts a query found, in the order the database returned them.
#[derive(Debug)]
pub struct WpQuery {
    pub posts: Vec<WpPost>,
}

impl WpQuery {
    /// The number of posts found.
    pub fn post_count(&self) -> (n: usize)
        ensures
            n == self.posts@.len(),
    {
        self.posts.len()
    }

    /// Hands out the posts.
    pub fn to_vec(self) -> (r: Vec<WpPost>)
        ensures
            r == self.posts,
    {
        self.posts
    }
}

} // verus!
