//! Filters on the dates of a post.

use vstd::prelude::*;

use crate::sql::SqlConditionOperator;
use crate::value::{text_value, SqlValue, SqlValueView};

verus! {

/// The date column a filter looks at.
#[derive(Debug, PartialEq, Eq, Clone, Copy, Structural)]
pub enum DateColumn {
    PostDate,
    PostDateGmt,
    ModifiedDate,
    ModifiedDateGmt,
}

impl DateColumn {
    /// The column's name in the posts table.
    pub open spec fn text(self) -> Seq<char> {
        match self {
            Self::PostDate => "post_date"@,
            Self::PostDateGmt => "post_date_gmt"@,
            Self::ModifiedDate => "post_modified"@,
            Self::ModifiedDateGmt => "post_modified_gmt"@,
        }
    }

    fn name(&self) -> (r: &'static str)
        ensures
            r@ == self.text(),
    {
        match self {
            Self::PostDate => "post_date",
            Self::PostDateGmt => "post_date_gmt",
            Self::ModifiedDate => "post_modified",
            Self::ModifiedDateGmt => "post_modified_gmt",
        }
    }

    pub fn to_string(&self) -> (r: String)
        ensures
            r@ == self.text(),
    {
        self.name().to_owned()
    }

    /// The column's name as a bound value.
    pub fn to_value(&self) -> (r: SqlValue)
        ensures
            r@ == text_value(self.text()),
    {
        SqlValue::from_text(self.name())
    }
}

/// A day, as the bound of a range.
#[derive(Debug, Clone, Copy)]
pub struct DateQueryAfterBefore {
    pub year: u16,
    pub month: u8,
    pub day: u8,
}

impl DateQueryAfterBefore {
    pub fn new(year: u16, month: u8, day: u8) -> (r: Self)
        ensures
            r.year == year,
            r.month == month,
            r.day == day,
    {
        Self { year, month, day }
    }

    /// Midnight at the start of the day.
    pub open spec fn value(self) -> SqlValueView {
        SqlValueView::Date(self.year, self.month, self.day, 0, 0, 0, 0)
    }

    pub fn to_value(&self) -> (r: SqlValue)
        ensures
            r@ == self.value(),
    {
        SqlValue::Date(self.year, self.month, self.day, 0u8, 0u8, 0u8, 0u32)
    }
}

/// One date filter: an exact day, a range, or both.
#[derive(Debug)]
pub struct DateQuery {
    pub year: Option<u16>,
    pub month: Option<u8>,
    /// Day of the month, from 1 to 31.
    pub day: Option<u8>,
    /// Hour, from 0 to 23.
    pub hour: Option<u8>,
    /// Minute, from 0 to 59.
    pub minute: Option<u8>,
    pub second: Option<u8>,
    pub after: Option<DateQueryAfterBefore>,
    pub before: Option<DateQueryAfterBefore>,
    /// Whether the bounds themselves belong to the range.
    pub inclusive: bool,
    pub column: DateColumn,
    /// Joins the range tests to what stands before them: `And` or `Or`.
    pub relation: SqlConditionOperator,
}

/// The moment that date parts stand for, where a missing year is 2023, a
/// missing month or day 1, and a missing time part 0.
pub open spec fn date_of_parts(
    year: Option<u16>,
    month: Option<u8>,
    day: Option<u8>,
    hour: Option<u8>,
    minute: Option<u8>,
    second: Option<u8>,
) -> SqlValueView {
    SqlValueView::Date(
        match year {
            Some(y) => y,
            None => 2023,
        },
        match month {
            Some(m) => m,
            None => 1,
        },
        match day {
            Some(d) => d,
            None => 1,
        },
        match hour {
            Some(h) => h,
            None => 0,
        },
        match minute {
            Some(m) => m,
            None => 0,
        },
        match second {
            Some(s) => s,
            None => 0,
        },
        0,
    )
}

/// Builds the bound value of `date_of_parts`.
pub fn date_value(
    year: Option<u16>,
    month: Option<u8>,
    day: Option<u8>,
    hour: Option<u8>,
    minute: Option<u8>,
    second: Option<u8>,
) -> (r: SqlValue)
    ensures
        r@ == date_of_parts(year, month, day, hour, minute, second),
{
    SqlValue::Date(
        match year {
            Some(y) => y,
            None => 2023u16,
        },
        match month {
            Some(m) => m,
            None => 1u8,
        },
        match day {
            Some(d) => d,
            None => 1u8,
        },
        match hour {
            Some(h) => h,
            None => 0u8,
        },
        match minute {
            Some(m) => m,
            None => 0u8,
        },
        match second {
            Some(s) => s,
            None => 0u8,
        },
        0u32,
    )
}

impl DateQuery {
    /// A filter on the post date that restricts nothing yet.
    pub fn new() -> (r: Self)
        ensures
            r == (DateQuery {
                year: None,
                month: None,
                day: None,
                hour: None,
                minute: None,
                second: None,
                after: None,
                before: None,
                inclusive: false,
                column: DateColumn::PostDate,
                relation: SqlConditionOperator::And,
            }),
    {
        Self {
            year: None,
            month: None,
            day: None,
            hour: None,
            minute: None,
            second: None,
            after: None,
            before: None,
            inclusive: false,
            column: DateColumn::PostDate,
            relation: SqlConditionOperator::And,
        }
    }

    pub fn year(self, y: u16) -> (r: Self)
        ensures
            r == (DateQuery { year: Some(y), ..self }),
    {
        let mut q = self;
        q.year = Some(y);
        q
    }

    pub fn month(self, m: u8) -> (r: Self)
        ensures
            r == (DateQuery { month: Some(m), ..self }),
    {
        let mut q = self;
        q.month = Some(m);
        q
    }

    pub fn day(self, d: u8) -> (r: Self)
        ensures
            r == (DateQuery { day: Some(d), ..self }),
    {
        let mut q = self;
        q.day = Some(d);
        q
    }

    pub fn hour(self, h: u8) -> (r: Self)
        ensures
            r == (DateQuery { hour: Some(h), ..self }),
    {
        let mut q = self;
        q.hour = Some(h);
        q
    }

    pub fn minute(self, m: u8) -> (r: Self)
        ensures
            r == (DateQuery { minute: Some(m), ..self }),
    {
        let mut q = self;
        q.minute = Some(m);
        q
    }

    pub fn second(self, s: u8) -> (r: Self)
        ensures
            r == (DateQuery { second: Some(s), ..self }),
    {
        let mut q = self;
        q.second = Some(s);
        q
    }

    pub fn after(self, after: DateQueryAfterBefore) -> (r: Self)
        ensures
            r == (DateQuery { after: Some(after), ..self }),
    {
        let mut q = self;
        q.after = Some(after);
        q
    }

    pub fn before(self, before: DateQueryAfterBefore) -> (r: Self)
        ensures
            r == (DateQuery { before: Some(before), ..self }),
    {
        let mut q = self;
        q.before = Some(before);
        q
    }

    pub fn inclusive(self, inclusive: bool) -> (r: Self)
        ensures
            r == (DateQuery { inclusive, ..self }),
    {
        let mut q = self;
        q.inclusive = inclusive;
        q
    }

    pub fn column(self, col: DateColumn) -> (r: Self)
        ensures
            r == (DateQuery { column: col, ..self }),
    {
        let mut q = self;
        q.column = col;
        q
    }

    /// The relation a filter ends up with when asked for `rel`: `Or` stays,
    /// everything else becomes `And`.
    pub open spec fn accepted_relation(rel: SqlConditionOperator) -> SqlConditionOperator {
        if rel == SqlConditionOperator::Or {
            SqlConditionOperator::Or
        } else {
            SqlConditionOperator::And
        }
    }

    pub fn relation(self, rel: SqlConditionOperator) -> (r: Self)
        ensures
            r == (DateQuery { relation: Self::accepted_relation(rel), ..self }),
    {
        let rel = match rel {
            SqlConditionOperator::And => rel,
            SqlConditionOperator::Or => rel,
            _ => SqlConditionOperator::And,
        };
        let mut q = self;
        q.relation = rel;
        q
    }

    /// Whether year, month and day are all given, so that the filter asks for
    /// one exact moment.
    pub open spec fn has_exact_date(self) -> bool {
        self.year is Some && self.month is Some && self.day is Some
    }

    /// The moment the date parts stand for.
    pub open spec fn value(self) -> SqlValueView {
        date_of_parts(self.year, self.month, self.day, self.hour, self.minute, self.second)
    }

    pub fn to_value(&self) -> (r: SqlValue)
        ensures
            r@ == self.value(),
    {
        date_value(self.year, self.month, self.day, self.hour, self.minute, self.second)
    }
}

} // verus!
