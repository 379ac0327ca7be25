//! Custom fields of a post, as the `wp_postmeta` table holds them.

use std::fmt::Display;
use vstd::prelude::*;
use vstd::string::to_string_from_display_ensures;

use crate::value::{text_value, values_view, SqlValue, SqlValueView};

verus! {

/// One custom field of one post.
#[derive(Debug)]
pub struct WpMeta {
    pub meta_id: u64,
    pub post_id: u64,
    pub meta_value: String,
    pub meta_key: String,
}

/// What a lookup of custom fields found.
#[derive(Debug)]
pub enum WpMetaResults {
    Single(WpMeta),
    Array(Vec<WpMeta>),
    Empty,
}

impl WpMeta {
    /// A field that is not stored yet: its id is 0. The value is kept as the
    /// text it displays as.
    pub fn new<T: Display>(post_id: u64, meta_key: &str, meta_value: T) -> (r: Self)
        ensures
            r.meta_id == 0,
            r.post_id == post_id,
            r.meta_key@ == meta_key@,
            to_string_from_display_ensures::<T>(&meta_value, r.meta_value),
    {
        Self { meta_id: 0, post_id, meta_value: meta_value.to_string(), meta_key: meta_key.to_owned() }
    }

    /// The values of the columns `meta_id`, `post_id`, `meta_key`,
    /// `meta_value`, in this order.
    pub open spec fn row(self) -> Seq<SqlValueView> {
        seq![
            SqlValueView::UInt(self.meta_id),
            SqlValueView::UInt(self.post_id),
            text_value(self.meta_key@),
            text_value(self.meta_value@),
        ]
    }

    /// The values to bind when the field is stored.
    pub fn to_values(&self) -> (r: Vec<SqlValue>)
        ensures
            values_view(r@) == self.row(),
    {
        let mut values: Vec<SqlValue> = Vec::new();
        values.push(SqlValue::UInt(self.meta_id));
        values.push(SqlValue::UInt(self.post_id));
        values.push(SqlValue::from_text(self.meta_key.as_str()));
        values.push(SqlValue::from_text(self.meta_value.as_str()));
        assert(values_view(values@) =~= self.row());
        values
    }
}

impl WpMetaResults {
    /// Sorts out the rows a lookup returned. Where one field was asked for,
    /// the first row is it and no row means `Empty`; otherwise all rows are
    /// handed on.
    pub fn from_rows(rows: Vec<WpMeta>, single: bool) -> (r: WpMetaResults)
        ensures
            single && rows@.len() > 0 ==> r == WpMetaResults::Single(rows@[0]),
            single && rows@.len() == 0 ==> r == WpMetaResults::Empty,
            !single ==> r == WpMetaResults::Array(rows),
    {
        if single {
            let mut rows = rows;
            if rows.len() > 0 {
                WpMetaResults::Single(rows.swap_remove(0))
            } else {
                WpMetaResults::Empty
            }
        } else {
            WpMetaResults::Array(rows)
        }
    }
}

} // verus!
