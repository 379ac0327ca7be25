//! Types a value can be cast to before it is compared.

use vstd::prelude::*;

verus! {

#[derive(Debug, PartialEq, Eq, Clone, Copy, Structural)]
pub enum CastType {
    Numeric,
    Binary,
    Char,
    Date,
    Datetime,
    Decimal,
    Signed,
    Time,
    Unsigned,
}

impl CastType {
    /// The type as it is written in a `CAST`. An unsigned value is cast as
    /// `CHAR`.
    pub open spec fn text(self) -> Seq<char> {
        match self {
            Self::Numeric => "NUMERIC"@,
            Self::Binary => "BINARY"@,
            Self::Char => "CHAR"@,
            Self::Date => "DATE"@,
            Self::Datetime => "DATETIME"@,
            Self::Decimal => "DECIMAL"@,
            Self::Signed => "SIGNED"@,
            Self::Time => "TIME"@,
            Self::Unsigned => "CHAR"@,
        }
    }

    pub fn to_string(&self) -> (r: String)
        ensures
            r@ == self.text(),
    {
        match self {
            Self::Numeric => "NUMERIC".to_owned(),
            Self::Binary => "BINARY".to_owned(),
            Self::Char => "CHAR".to_owned(),
            Self::Date => "DATE".to_owned(),
            Self::Datetime => "DATETIME".to_owned(),
            Self::Decimal => "DECIMAL".to_owned(),
            Self::Signed => "SIGNED".to_owned(),
            Self::Time => "TIME".to_owned(),
            Self::Unsigned => "CHAR".to_owned(),
        }
    }
}

} // verus!
