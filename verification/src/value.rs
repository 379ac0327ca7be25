//! The values bound to a statement's placeholders.

use vstd::prelude::*;
use vstd::utf8::encode_utf8;

verus! {

/// A value bound to one placeholder.
#[derive(Debug, Clone, PartialEq, Eq)]
pub enum SqlValue {
    /// A byte string; text is bound as its UTF-8 bytes.
    Bytes(Vec<u8>),
    Int(i64),
    UInt(u64),
    /// Year, month, day, hour, minute, second, microsecond.
    Date(u16, u8, u8, u8, u8, u8, u32),
}

/// What a bound value holds.
pub enum SqlValueView {
    Bytes(Seq<u8>),
    Int(i64),
    UInt(u64),
    Date(u16, u8, u8, u8, u8, u8, u32),
}

impl View for SqlValue {
    type V = SqlValueView;

    open spec fn view(&self) -> SqlValueView {
        match *self {
            SqlValue::Bytes(b) => SqlValueView::Bytes(b@),
            SqlValue::Int(n) => SqlValueView::Int(n),
            SqlValue::UInt(n) => SqlValueView::UInt(n),
            SqlValue::Date(y, mo, d, h, mi, s, us) => SqlValueView::Date(y, mo, d, h, mi, s, us),
        }
    }
}

/// The value that binds a text.
pub open spec fn text_value(s: Seq<char>) -> SqlValueView {
    SqlValueView::Bytes(encode_utf8(s))
}

/// The values that bind a list of ids, in order.
pub open spec fn id_values(ids: Seq<u64>) -> Seq<SqlValueView> {
    Seq::new(ids.len(), |i: int| SqlValueView::UInt(ids[i]))
}

/// The values that bind a list of texts, in order.
pub open spec fn text_values(texts: Seq<&str>) -> Seq<SqlValueView> {
    Seq::new(texts.len(), |i: int| text_value(texts[i]@))
}

/// The values that bind a list of owned texts, in order.
pub open spec fn string_values(texts: Seq<String>) -> Seq<SqlValueView> {
    Seq::new(texts.len(), |i: int| text_value(texts[i]@))
}

/// What a list of bound values holds, in order.
pub open spec fn values_view(values: Seq<SqlValue>) -> Seq<SqlValueView> {
    Seq::new(values.len(), |i: int| values[i]@)
}

impl SqlValue {
    /// Binds a text as its UTF-8 bytes.
    pub fn from_text(s: &str) -> (r: SqlValue)
        ensures
            r@ == text_value(s@),
    {
        SqlValue::Bytes(s.as_bytes_vec())
    }
}

} // verus!
