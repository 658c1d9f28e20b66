//! The currencies in which prices are recorded.
use vstd::prelude::*;

use crate::text::str_eq;

verus! {

/// A currency in which an item's price is recorded.
#[derive(Debug, Clone, Copy, PartialEq, Eq, Structural)]
pub enum Unit {
    NOK,
    EUR,
}

impl Unit {
    /// Every unit, in the order of the unit selector.
    pub const ALL: [Unit; 2] = [Unit::NOK, Unit::EUR];

    /// The position of the unit in the unit selector.
    pub open spec fn spec_idx(self) -> u32 {
        match self {
            Unit::NOK => 0,
            Unit::EUR => 1,
        }
    }

    /// The code of the unit, as it is stored and shown.
    pub open spec fn spec_code(self) -> Seq<char> {
        match self {
            Unit::NOK => "NOK"@,
            Unit::EUR => "EUR"@,
        }
    }

    /// How many of the smallest coin make one of the unit; prices are kept
    /// in the smallest coin.
    pub open spec fn spec_scale(self) -> u32 {
        match self {
            Unit::NOK => 100,
            Unit::EUR => 100,
        }
    }

    /// Reads a unit from its code; any other text is refused.
    pub fn from_str(s: &str) -> (r: Result<Self, ()>)
        ensures
            r == Ok::<Unit, ()>(Unit::NOK) <==> s@ == "NOK"@,
            r == Ok::<Unit, ()>(Unit::EUR) <==> s@ == "EUR"@,
            r is Err <==> (s@ != "NOK"@ && s@ != "EUR"@),
    {
        proof {
            reveal_strlit("NOK");
            reveal_strlit("EUR");
            assert("NOK"@[0] != "EUR"@[0]);
        }
        if str_eq(s, "NOK") {
            Ok(Unit::NOK)
        } else if str_eq(s, "EUR") {
            Ok(Unit::EUR)
        } else {
            Err(())
        }
    }

    /// Looks a unit up by its position in the unit selector.
    pub fn from_idx(idx: u32) -> (r: Result<Self, ()>)
        ensures
            r == unit_at(idx),
            r is Ok ==> r->Ok_0.spec_idx() == idx,
    {
        match idx {
            0 => Ok(Unit::NOK),
            1 => Ok(Unit::EUR),
            _ => Err(()),
        }
    }

    /// How many of the smallest coin make one of the unit.
    pub fn scale(&self) -> (r: u32)
        ensures
            r == self.spec_scale(),
    {
        match self {
            Unit::NOK => 100,
            Unit::EUR => 100,
        }
    }

    /// The position of the unit in the unit selector.
    pub fn idx(&self) -> (r: u32)
        ensures
            r == self.spec_idx(),
    {
        match self {
            Unit::NOK => 0,
            Unit::EUR => 1,
        }
    }

    /// The code of the unit, as it is stored and shown.
    pub fn as_str(&self) -> (r: &'static str)
        ensures
            r@ == self.spec_code(),
    {
        match self {
            Unit::NOK => "NOK",
            Unit::EUR => "EUR",
        }
    }
}

/// The unit at a position of the unit selector.
pub open spec fn unit_at(idx: u32) -> Result<Unit, ()> {
    if idx == 0 {
        Ok(Unit::NOK)
    } else if idx == 1 {
        Ok(Unit::EUR)
    } else {
        Err(())
    }
}

/// A unit's position in the unit selector, and its code, both lead back to
/// the unit.
pub proof fn lemma_unit_round_trip(u: Unit)
    ensures
        unit_at(u.spec_idx()) == Ok::<Unit, ()>(u),
        u.spec_code() == "NOK"@ <==> u == Unit::NOK,
        u.spec_code() == "EUR"@ <==> u == Unit::EUR,
{
    reveal_strlit("NOK");
    reveal_strlit("EUR");
    assert("NOK"@[0] != "EUR"@[0]);
}

impl TryFrom<u32> for Unit {
    type Error = ();

    fn try_from(value: u32) -> (r: Result<Self, Self::Error>) {
        Self::from_idx(value)
    }
}

impl vstd::std_specs::convert::TryFromSpecImpl<u32> for Unit {
    open spec fn obeys_try_from_spec() -> bool {
        true
    }

    open spec fn try_from_spec(v: u32) -> Result<Self, ()> {
        unit_at(v)
    }
}

impl std::str::FromStr for Unit {
    type Err = ();

    fn from_str(s: &str) -> Result<Self, Self::Err> {
        Unit::from_str(s)
    }
}

impl From<Unit> for &'static str {
    fn from(unit: Unit) -> (r: Self) {
        match unit {
            Unit::NOK => "NOK",
            Unit::EUR => "EUR",
        }
    }
}

impl vstd::std_specs::convert::FromSpecImpl<Unit> for &'static str {
    open spec fn obeys_from_spec() -> bool {
        true
    }

    open spec fn from_spec(v: Unit) -> Self {
        match v {
            Unit::NOK => "NOK",
            Unit::EUR => "EUR",
        }
    }
}

} // verus!
