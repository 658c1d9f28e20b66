//! The types a column of a query's result, or an input of a query, can have,
//! and the values of those types.
use vstd::prelude::*;

verus! {

/// The type of a column, as the user declares it for a query.
#[derive(Debug, Clone, Copy, PartialEq, Eq, Structural)]
pub enum ColumnType {
    String,
    Number,
    Date,
}

/// A position in the type selector that names no type.
#[derive(Debug, Clone, Copy, PartialEq, Eq, Structural)]
pub struct NumberOutOfRange(pub u32);

/// The type at a position of the type selector.
pub open spec fn column_type_at(idx: u32) -> Result<ColumnType, NumberOutOfRange> {
    if idx == 0 {
        Ok(ColumnType::String)
    } else if idx == 1 {
        Ok(ColumnType::Number)
    } else if idx == 2 {
        Ok(ColumnType::Date)
    } else {
        Err(NumberOutOfRange(idx))
    }
}

impl ColumnType {
    /// Every type, in the order of the type selector.
    pub const ALL: [ColumnType; 3] = [ColumnType::String, ColumnType::Number, ColumnType::Date];

    /// The position of the type in the type selector.
    pub open spec fn spec_idx(self) -> u32 {
        match self {
            ColumnType::String => 0,
            ColumnType::Number => 1,
            ColumnType::Date => 2,
        }
    }

    /// The name under which the type is shown.
    pub open spec fn spec_name(self) -> Seq<char> {
        match self {
            ColumnType::String => "String"@,
            ColumnType::Number => "Number"@,
            ColumnType::Date => "Date"@,
        }
    }

    /// The position of the type in the type selector.
    pub fn idx(&self) -> (r: u32)
        ensures
            r == self.spec_idx(),
    {
        match self {
            ColumnType::String => 0,
            ColumnType::Number => 1,
            ColumnType::Date => 2,
        }
    }

    /// Looks a type up by its position in the type selector.
    pub fn from_idx(idx: u32) -> (r: Result<ColumnType, NumberOutOfRange>)
        ensures
            r == column_type_at(idx),
            r is Ok ==> r->Ok_0.spec_idx() == idx,
    {
        match idx {
            0 => Ok(ColumnType::String),
            1 => Ok(ColumnType::Number),
            2 => Ok(ColumnType::Date),
            other => Err(NumberOutOfRange(other)),
        }
    }

    /// The name under which the type is shown.
    pub fn as_str(&self) -> (r: &'static str)
        ensures
            r@ == self.spec_name(),
    {
        match self {
            ColumnType::String => "String",
            ColumnType::Number => "Number",
            ColumnType::Date => "Date",
        }
    }
}

/// A type's position in the type selector leads back to the type.
pub proof fn lemma_column_type_round_trip(t: ColumnType)
    ensures
        column_type_at(t.spec_idx()) == Ok::<ColumnType, NumberOutOfRange>(t),
{
}

impl From<ColumnType> for u32 {
    fn from(ty: ColumnType) -> (r: u32) {
        ty.idx()
    }
}

impl vstd::std_specs::convert::FromSpecImpl<ColumnType> for u32 {
    open spec fn obeys_from_spec() -> bool {
        true
    }

    open spec fn from_spec(v: ColumnType) -> u32 {
        v.spec_idx()
    }
}

impl TryFrom<u32> for ColumnType {
    type Error = NumberOutOfRange;

    fn try_from(value: u32) -> (r: Result<Self, Self::Error>) {
        ColumnType::from_idx(value)
    }
}

impl vstd::std_specs::convert::TryFromSpecImpl<u32> for ColumnType {
    open spec fn obeys_try_from_spec() -> bool {
        true
    }

    open spec fn try_from_spec(v: u32) -> Result<Self, NumberOutOfRange> {
        column_type_at(v)
    }
}

/// A value of one of the column types: text, a whole number, or a date
/// written `YYYY-MM-DD`.
#[derive(Debug)]
pub enum ColumnTypeValue {
    String(String),
    Number(i64),
    Date(String),
}

impl Clone for ColumnTypeValue {
    fn clone(&self) -> (r: Self)
        ensures
            r == *self,
    {
        match self {
            ColumnTypeValue::String(s) => ColumnTypeValue::String(s.clone()),
            ColumnTypeValue::Number(n) => ColumnTypeValue::Number(*n),
            ColumnTypeValue::Date(d) => ColumnTypeValue::Date(d.clone()),
        }
    }
}

impl ColumnTypeValue {
    /// The type of the value.
    pub open spec fn spec_column_type(self) -> ColumnType {
        match self {
            ColumnTypeValue::String(_) => ColumnType::String,
            ColumnTypeValue::Number(_) => ColumnType::Number,
            ColumnTypeValue::Date(_) => ColumnType::Date,
        }
    }

    /// Whether the value is the one a field of type `ty` starts with: empty
    /// text, zero, or the date `today`.
    pub open spec fn is_initial(self, ty: ColumnType, today: Seq<char>) -> bool {
        match self {
            ColumnTypeValue::String(s) => ty == ColumnType::String && s@.len() == 0,
            ColumnTypeValue::Number(n) => ty == ColumnType::Number && n == 0,
            ColumnTypeValue::Date(d) => ty == ColumnType::Date && d@ == today,
        }
    }

    /// The type of the value.
    pub fn column_type(&self) -> (r: ColumnType)
        ensures
            r == self.spec_column_type(),
    {
        match self {
            ColumnTypeValue::String(_) => ColumnType::String,
            ColumnTypeValue::Number(_) => ColumnType::Number,
            ColumnTypeValue::Date(_) => ColumnType::Date,
        }
    }

    /// Whether the value is of type `ty`.
    pub fn is_column_type(&self, ty: ColumnType) -> (r: bool)
        ensures
            r == (self.spec_column_type() == ty),
    {
        match self {
            ColumnTypeValue::String(_) => ty == ColumnType::String,
            ColumnTypeValue::Number(_) => ty == ColumnType::Number,
            ColumnTypeValue::Date(_) => ty == ColumnType::Date,
        }
    }

    /// The value a field of type `ty` starts with: empty text, zero, or the
    /// date `today`.
    pub fn initial(ty: ColumnType, today: String) -> (r: ColumnTypeValue)
        ensures
            r.spec_column_type() == ty,
            r.is_initial(ty, today@),
    {
        match ty {
            ColumnType::String => ColumnTypeValue::String(String::new()),
            ColumnType::Number => ColumnTypeValue::Number(0),
            ColumnType::Date => ColumnTypeValue::Date(today),
        }
    }
}

} // verus!
