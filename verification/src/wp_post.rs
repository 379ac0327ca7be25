//! Posts as the `wp_posts` table holds them.

use vstd::prelude::*;

use crate::sql::date::{get_date_now, get_utc_date_now, SqlDateTime};
use crate::value::{text_value, values_view, SqlValue, SqlValueView};

use self::post_status::PostStatus;

pub mod meta;
pub mod post_status;

pub use self::meta::WpMeta;
pub use self::meta::WpMetaResults;

verus! {

/// One row of the posts table.
#[derive(Debug, Clone)]
#[allow(non_snake_case)]
pub struct WpPost {
    pub ID: u64,
    pub post_author: u64,
    pub post_date: SqlDateTime,
    pub post_date_gmt: SqlDateTime,
    pub post_content: String,
    pub post_title: String,
    pub post_excerpt: String,
    pub post_status: PostStatus,
    pub comment_status: String,
    pub ping_status: String,
    pub post_password: String,
    pub post_name: String,
    pub to_ping: String,
    pub pinged: String,
    pub post_modified: SqlDateTime,
    pub post_modified_gmt: SqlDateTime,
    pub post_content_filtered: String,
    pub post_parent: u64,
    pub guid: String,
    pub menu_order: u64,
    pub post_type: String,
    pub post_mime_type: String,
    pub comment_count: u64,
}

impl WpPost {
    /// Whether this is a post as `post_author` has just begun it: a draft of
    /// type `post` without an id, with every text empty, written and modified
    /// at the same moment.
    pub open spec fn is_fresh(self, post_author: u64) -> bool {
        &&& self.ID == 0
        &&& self.post_author == post_author
        &&& self.post_date.is_clock_time()
        &&& self.post_date_gmt.is_clock_time()
        &&& self.post_content@.len() == 0
        &&& self.post_title@.len() == 0
        &&& self.post_excerpt@.len() == 0
        &&& self.post_status == PostStatus::Draft
        &&& self.comment_status@.len() == 0
        &&& self.ping_status@.len() == 0
        &&& self.post_password@.len() == 0
        &&& self.post_name@.len() == 0
        &&& self.to_ping@.len() == 0
        &&& self.pinged@.len() == 0
        &&& self.post_modified == self.post_date
        &&& self.post_modified_gmt == self.post_date_gmt
        &&& self.post_content_filtered@.len() == 0
        &&& self.post_parent == 0
        &&& self.guid@.len() == 0
        &&& self.menu_order == 0
        &&& self.post_type@ == "post"@
        &&& self.post_mime_type@.len() == 0
        &&& self.comment_count == 0
    }

    /// A draft by `post_author`, dated now.
    pub fn new(post_author: u64) -> (r: Self)
        ensures
            r.is_fresh(post_author),
    {
        let now = get_date_now();
        let now_utc = get_utc_date_now();
        Self {
            ID: 0,
            post_author,
            post_date: now,
            post_date_gmt: now_utc,
            post_content: String::new(),
            post_title: String::new(),
            post_excerpt: String::new(),
            post_status: PostStatus::Draft,
            comment_status: String::new(),
            ping_status: String::new(),
            post_password: String::new(),
            post_name: String::new(),
            to_ping: String::new(),
            pinged: String::new(),
            post_modified: now,
            post_modified_gmt: now_utc,
            post_content_filtered: String::new(),
            post_parent: 0,
            guid: String::new(),
            menu_order: 0,
            post_type: "post".to_owned(),
            post_mime_type: String::new(),
            comment_count: 0,
        }
    }

    /// The values of all columns, in the order of the table.
    pub open spec fn row(self) -> Seq<SqlValueView> {
        seq![
            SqlValueView::UInt(self.ID),
            SqlValueView::UInt(self.post_author),
            self.post_date.value(),
            self.post_date_gmt.value(),
            text_value(self.post_content@),
            text_value(self.post_title@),
            text_value(self.post_excerpt@),
            text_value(self.post_status.text()),
            text_value(self.comment_status@),
            text_value(self.ping_status@),
            text_value(self.post_password@),
            text_value(self.post_name@),
            text_value(self.to_ping@),
            text_value(self.pinged@),
            self.post_modified.value(),
            self.post_modified_gmt.value(),
            text_value(self.post_content_filtered@),
            SqlValueView::UInt(self.post_parent),
            text_value(self.guid@),
            SqlValueView::UInt(self.menu_order),
            text_value(self.post_type@),
            text_value(self.post_mime_type@),
            SqlValueView::UInt(self.comment_count),
        ]
    }

    /// The values to bind when the post is stored: one for each column.
    pub fn to_values(&self) -> (r: Vec<SqlValue>)
        ensures
            values_view(r@) == self.row(),
            r@.len() == 23,
    {
        let mut values: Vec<SqlValue> = Vec::new();
        values.push(SqlValue::UInt(self.ID));
        values.push(SqlValue::UInt(self.post_author));
        values.push(self.post_date.to_value());
        values.push(self.post_date_gmt.to_value());
        values.push(SqlValue::from_text(self.post_content.as_str()));
        values.push(SqlValue::from_text(self.post_title.as_str()));
        values.push(SqlValue::from_text(self.post_excerpt.as_str()));
        values.push(self.post_status.to_value());
        values.push(SqlValue::from_text(self.comment_status.as_str()));
        values.push(SqlValue::from_text(self.ping_status.as_str()));
        values.push(SqlValue::from_text(self.post_password.as_str()));
        values.push(SqlValue::from_text(self.post_name.as_str()));
        values.push(SqlValue::from_text(self.to_ping.as_str()));
        values.push(SqlValue::from_text(self.pinged.as_str()));
        values.push(self.post_modified.to_value());
        values.push(self.post_modified_gmt.to_value());
        values.push(SqlValue::from_text(self.post_content_filtered.as_str()));
        values.push(SqlValue::UInt(self.post_parent));
        values.push(SqlValue::from_text(self.guid.as_str()));
        values.push(SqlValue::UInt(self.menu_order));
        values.push(SqlValue::from_text(self.post_type.as_str()));
        values.push(SqlValue::from_text(self.post_mime_type.as_str()));
        values.push(SqlValue::UInt(self.comment_count));
        assert(values_view(values@) =~= self.row());
        values
    }
}

} // verus!
