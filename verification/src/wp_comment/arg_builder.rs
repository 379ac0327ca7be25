//! The description of the comments wanted.

use vstd::prelude::*;

use crate::params::meta_query::MetaQueryMap;
use crate::sql::cast_type::CastType;
use crate::sql::{SqlCompareOperator, SqlOrder};
use crate::wp_comment::comment_approved::CommentApproved;
use crate::wp_comment::comment_type::CommentType;
use crate::wp_post::post_status::PostStatus;

use self::fields::Fields;
use self::hierarchical::Hierarchy;
use self::orderby::Orderby;

pub mod fields;
pub mod hierarchical;
pub mod orderby;

verus! {

/// Which comments to select.
#[derive(Debug)]
#[allow(non_snake_case)]
pub struct WpCommentQueryArgs {
    pub author_email: Option<String>,
    pub author_url: Option<String>,
    pub author__in: Option<Vec<u64>>,
    pub author__not_in: Option<Vec<u64>>,
    pub comment__in: Option<Vec<u64>>,
    pub comment__not_in: Option<Vec<u64>>,
    /// Whether the comments are only to be counted.
    pub count: bool,
    pub fields: Fields,
    pub include_unapproved: Option<Vec<u64>>,
    pub karma: Option<u64>,
    pub meta_key: Option<Vec<String>>,
    pub meta_value: Option<Vec<String>>,
    pub meta_compare: SqlCompareOperator,
    pub meta_type: CastType,
    /// Custom-field clauses, grouped by the relation that joins them.
    pub meta_query: Option<MetaQueryMap>,
    pub number: Option<u64>,
    pub paged: Option<u64>,
    pub offset: Option<u64>,
    pub orderby: Orderby,
    pub order: SqlOrder,
    pub parent: Option<u64>,
    pub parent__in: Option<Vec<u64>>,
    pub parent__not_in: Option<Vec<u64>>,
    pub post_author__in: Option<Vec<u64>>,
    pub post_author__not_in: Option<Vec<u64>>,
    pub post_id: Option<u64>,
    pub post__in: Option<Vec<u64>>,
    pub post__not_in: Option<Vec<u64>>,
    pub post_author: Option<u64>,
    pub post_status: Option<PostStatus>,
    pub post_type: Option<Vec<String>>,
    pub post_name: Option<String>,
    pub post_parent: Option<u64>,
    pub search: Option<String>,
    pub status: Option<CommentApproved>,
    pub comment_type: Option<CommentType>,
    pub comment_type__in: Option<Vec<CommentType>>,
    pub comment_type__not_in: Option<Vec<CommentType>>,
    pub user_id: Option<u64>,
    pub hierarchical: Option<Hierarchy>,
}

impl WpCommentQueryArgs {
    /// The description without any filter: whole comments, not counted,
    /// custom fields compared as text for equality, newest first by GMT
    /// date.
    pub open spec fn blank() -> WpCommentQueryArgs {
        WpCommentQueryArgs {
            author_email: None,
            author_url: None,
            author__in: None,
            author__not_in: None,
            comment__in: None,
            comment__not_in: None,
            count: false,
            fields: Fields::All,
            include_unapproved: None,
            karma: None,
            meta_key: None,
            meta_value: None,
            meta_compare: SqlCompareOperator::Equals,
            meta_type: CastType::Char,
            meta_query: None,
            number: None,
            paged: None,
            offset: None,
            orderby: Orderby::DateGmt,
            order: SqlOrder::Desc,
            parent: None,
            parent__in: None,
            parent__not_in: None,
            post_author__in: None,
            post_author__not_in: None,
            post_id: None,
            post__in: None,
            post__not_in: None,
            post_author: None,
            post_status: None,
            post_type: None,
            post_name: None,
            post_parent: None,
            search: None,
            status: None,
            comment_type: None,
            comment_type__in: None,
            comment_type__not_in: None,
            user_id: None,
            hierarchical: None,
        }
    }
}

/// Builds a description of the comments wanted.
pub struct WpCommentArgBuilder {
    pub args: WpCommentQueryArgs,
}

impl WpCommentArgBuilder {
    /// A builder that holds no filter yet.
    pub fn new() -> (r: Self)
        ensures
            r.args == WpCommentQueryArgs::blank(),
    {
        Self {
            args: WpCommentQueryArgs {
                author_email: None,
                author_url: None,
                author__in: None,
                author__not_in: None,
                comment__in: None,
                comment__not_in: None,
                count: false,
                fields: Fields::All,
                include_unapproved: None,
                karma: None,
                meta_key: None,
                meta_value: None,
                meta_compare: SqlCompareOperator::Equals,
                meta_type: CastType::Char,
                meta_query: None,
                number: None,
                paged: None,
                offset: None,
                orderby: Orderby::DateGmt,
                order: SqlOrder::Desc,
                parent: None,
                parent__in: None,
                parent__not_in: None,
                post_author__in: None,
                post_author__not_in: None,
                post_id: None,
                post__in: None,
                post__not_in: None,
                post_author: None,
                post_status: None,
                post_type: None,
                post_name: None,
                post_parent: None,
                search: None,
                status: None,
                comment_type: None,
                comment_type__in: None,
                comment_type__not_in: None,
                user_id: None,
                hierarchical: None,
            },
        }
    }
}

impl std::ops::Deref for WpCommentArgBuilder {
    type Target = WpCommentQueryArgs;

    fn deref(&self) -> (r: &WpCommentQueryArgs)
        ensures
            *r == self.args,
    {
        &self.args
    }
}

impl std::ops::DerefMut for WpCommentArgBuilder {
    fn deref_mut(&mut self) -> (r: &mut WpCommentQueryArgs)
        ensures
            *r == old(self).args,
            final(self).args == *final(r),
    {
        &mut self.args
    }
}

} // verus!
