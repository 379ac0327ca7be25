//! Operators and keywords of the statements this crate writes.

use vstd::prelude::*;

use crate::strings::{str_eq, to_uppercase};

pub mod cast_type;
pub mod date;
pub mod env_vars;

verus! {

/// Set-membership and logical operators.
#[derive(Debug, PartialEq, Eq, Clone, Copy, Structural)]
pub enum SqlConditionOperator {
    In,
    NotIn,
    And,
    Exists,
    NotExists,
    Or,
}

impl SqlConditionOperator {
    /// The operator as it is written in a statement.
    pub open spec fn text(self) -> Seq<char> {
        match self {
            Self::And => "AND"@,
            Self::Exists => "EXISTS"@,
            Self::In => "IN"@,
            Self::NotExists => "NOT EXISTS"@,
            Self::NotIn => "NOT IN"@,
            Self::Or => "OR"@,
        }
    }

    pub fn to_string(&self) -> (r: String)
        ensures
            r@ == self.text(),
    {
        match self {
            Self::And => "AND".to_owned(),
            Self::Exists => "EXISTS".to_owned(),
            Self::In => "IN".to_owned(),
            Self::NotExists => "NOT EXISTS".to_owned(),
            Self::NotIn => "NOT IN".to_owned(),
            Self::Or => "OR".to_owned(),
        }
    }
}

/// Relational operators for comparing numbers.
#[derive(Debug, PartialEq, Eq, Clone, Copy, Structural)]
pub enum SqlCompareOperator {
    Equals,
    NotEquals,
    GreaterThan,
    LessThan,
    GreaterThanOrEqualTo,
    LessThanOrEqualTo,
}

/// Operators a custom-field comparison can use.
#[derive(Debug, PartialEq, Eq, Clone, Copy, Structural)]
pub enum SqlSearchOperators {
    Equals,
    NotEquals,
    GreaterThan,
    LessThan,
    GreaterThanOrEqualTo,
    LessThanOrEqualTo,
    Like,
    NotLike,
    Exists,
    NotExists,
}

impl SqlSearchOperators {
    /// The operator as it is written in a statement.
    pub open spec fn text(self) -> Seq<char> {
        match self {
            Self::Equals => "="@,
            Self::NotEquals => "!="@,
            Self::GreaterThan => ">"@,
            Self::LessThan => "<"@,
            Self::GreaterThanOrEqualTo => ">="@,
            Self::LessThanOrEqualTo => "<="@,
            Self::Like => "LIKE"@,
            Self::NotLike => "NOT LIKE"@,
            Self::Exists => "EXISTS"@,
            Self::NotExists => "NOT EXISTS"@,
        }
    }

    /// Whether the operator tests for a key's presence instead of comparing a
    /// value.
    pub open spec fn is_existence_test(self) -> bool {
        self == Self::Exists || self == Self::NotExists
    }

    pub fn to_string(&self) -> (r: String)
        ensures
            r@ == self.text(),
    {
        match self {
            Self::Equals => "=".to_owned(),
            Self::NotEquals => "!=".to_owned(),
            Self::GreaterThan => ">".to_owned(),
            Self::LessThan => "<".to_owned(),
            Self::GreaterThanOrEqualTo => ">=".to_owned(),
            Self::LessThanOrEqualTo => "<=".to_owned(),
            Self::Like => "LIKE".to_owned(),
            Self::NotLike => "NOT LIKE".to_owned(),
            Self::Exists => "EXISTS".to_owned(),
            Self::NotExists => "NOT EXISTS".to_owned(),
        }
    }
}

/// Sort direction.
#[derive(Debug, PartialEq, Eq, Clone, Copy, Structural)]
pub enum SqlOrder {
    Asc,
    Desc,
}

impl SqlOrder {
    /// The direction as it is written in a statement.
    pub open spec fn text(self) -> Seq<char> {
        match self {
            Self::Asc => "ASC"@,
            Self::Desc => "DESC"@,
        }
    }

    /// The direction an upper-case keyword names; anything but `ASC` sorts
    /// descending.
    pub open spec fn of_keyword(upper: Seq<char>) -> SqlOrder {
        if upper == "ASC"@ {
            SqlOrder::Asc
        } else {
            SqlOrder::Desc
        }
    }

    pub fn to_string(&self) -> (r: String)
        ensures
            r@ == self.text(),
    {
        match self {
            Self::Asc => "ASC".to_owned(),
            Self::Desc => "DESC".to_owned(),
        }
    }

    /// Reads a direction from a keyword that is already upper case.
    pub fn from_keyword(upper: &str) -> (r: SqlOrder)
        ensures
            r == Self::of_keyword(upper@),
    {
        if str_eq(upper, "ASC") {
            SqlOrder::Asc
        } else {
            SqlOrder::Desc
        }
    }
}

/// Every direction is read back from its own keyword.
pub proof fn lemma_order_keyword_round_trip(order: SqlOrder)
    ensures
        SqlOrder::of_keyword(order.text()) == order,
{
    reveal_strlit("ASC");
    reveal_strlit("DESC");
    assert("ASC"@.len() != "DESC"@.len());
}

impl From<&str> for SqlOrder {
    /// Reads a direction whatever the case of its letters.
    fn from(s: &str) -> (r: SqlOrder) {
        let upper = to_uppercase(s);
        SqlOrder::from_keyword(upper.as_str())
    }
}

impl vstd::std_specs::convert::FromSpecImpl<&str> for SqlOrder {
    open spec fn obeys_from_spec() -> bool {
        true
    }

    open spec fn from_spec(s: &str) -> SqlOrder {
        SqlOrder::of_keyword(crate::strings::uppercase_of(s@))
    }
}

} // verus!
