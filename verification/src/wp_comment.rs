//! Comments as the `wp_comments` table holds them.

use vstd::prelude::*;

use crate::sql::date::{get_date_now, get_utc_date_now, SqlDateTime};

use self::comment_approved::CommentApproved;
use self::comment_type::CommentType;

pub mod arg_builder;
pub mod comment_approved;
pub mod comment_type;

verus! {

/// One comment.
#[derive(Debug)]
#[allow(non_snake_case)]
pub struct WpComment {
    pub comment_ID: u64,
    pub comment_post_ID: u64,
    pub comment_author: String,
    pub comment_author_email: String,
    pub comment_author_url: String,
    /// The four bytes of the author's IPv4 address.
    pub comment_author_IP: [u8; 4],
    pub comment_date: SqlDateTime,
    pub comment_date_gmt: SqlDateTime,
    pub comment_content: String,
    pub comment_karma: u64,
    pub comment_approved: CommentApproved,
    pub comment_agent: String,
    pub comment_type: CommentType,
    pub comment_parent: u64,
    pub user_id: u64,
    pub children: Option<Vec<WpComment>>,
}

impl WpComment {
    /// Whether this is a comment as `user_id` has just begun it: approved,
    /// of the plain kind, with no text, no post, no parent and no replies,
    /// from address 0.0.0.0.
    pub open spec fn is_fresh(self, user_id: u64) -> bool {
        &&& self.comment_ID == 0
        &&& self.comment_post_ID == 0
        &&& self.comment_author@.len() == 0
        &&& self.comment_author_email@.len() == 0
        &&& self.comment_author_url@.len() == 0
        &&& self.comment_author_IP@ == seq![0u8, 0u8, 0u8, 0u8]
        &&& self.comment_date.is_clock_time()
        &&& self.comment_date_gmt.is_clock_time()
        &&& self.comment_content@.len() == 0
        &&& self.comment_karma == 0
        &&& self.comment_approved == CommentApproved::Approved
        &&& self.comment_agent@.len() == 0
        &&& self.comment_type == CommentType::Comment
        &&& self.comment_parent == 0
        &&& self.user_id == user_id
        &&& self.children is None
    }

    /// A comment by `user_id`, dated now.
    pub fn new(user_id: u64) -> (r: Self)
        ensures
            r.is_fresh(user_id),
    {
        let address: [u8; 4] = [0, 0, 0, 0];
        assert(address@ =~= seq![0u8, 0u8, 0u8, 0u8]);
        Self {
            comment_ID: 0,
            comment_post_ID: 0,
            comment_author: String::new(),
            comment_author_email: String::new(),
            comment_author_url: String::new(),
            comment_author_IP: address,
            comment_date: get_date_now(),
            comment_date_gmt: get_utc_date_now(),
            comment_content: String::new(),
            comment_karma: 0,
            comment_approved: CommentApproved::Approved,
            comment_agent: String::new(),
            comment_type: CommentType::Comment,
            comment_parent: 0,
            user_id,
            children: None,
        }
    }
}

} // verus!
