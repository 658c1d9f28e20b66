//! Whether a name field of a form may be submitted: it needs a database
//! connection and a name that is not blank.
use vstd::prelude::*;

use crate::text::{blank, is_blank};

verus! {

/// The state of a name field: whether a database is connected and whether
/// the name holds more than white space.
#[derive(Debug, Clone, Copy, PartialEq, Eq, Structural)]
pub enum NameStatus {
    /// Connected, and the name is filled in.
    Valid,
    /// The name is filled in, but no database is connected.
    NonEmpty,
    /// A database is connected, but the name is blank.
    Connected,
    /// Neither.
    Invalid,
}

impl NameStatus {
    /// Whether a database is connected.
    pub open spec fn connected(self) -> bool {
        self == NameStatus::Valid || self == NameStatus::Connected
    }

    /// Whether the name is filled in.
    pub open spec fn filled(self) -> bool {
        self == NameStatus::Valid || self == NameStatus::NonEmpty
    }

    /// The state with the given connection and name.
    pub open spec fn of(connected: bool, filled: bool) -> NameStatus {
        if connected {
            if filled {
                NameStatus::Valid
            } else {
                NameStatus::Connected
            }
        } else {
            if filled {
                NameStatus::NonEmpty
            } else {
                NameStatus::Invalid
            }
        }
    }

    /// A database was connected. A connection is never dropped, only
    /// replaced by another one.
    pub fn connect(&mut self)
        ensures
            *final(self) == NameStatus::of(true, old(self).filled()),
    {
        match *self {
            NameStatus::Valid => {},
            NameStatus::NonEmpty => *self = NameStatus::Valid,
            NameStatus::Connected => {},
            NameStatus::Invalid => *self = NameStatus::Connected,
        }
    }

    /// The name now holds more than white space.
    pub fn name_non_empty(&mut self)
        ensures
            *final(self) == NameStatus::of(old(self).connected(), true),
    {
        match *self {
            NameStatus::Valid => {},
            NameStatus::NonEmpty => {},
            NameStatus::Connected => *self = NameStatus::Valid,
            NameStatus::Invalid => *self = NameStatus::NonEmpty,
        }
    }

    /// The name is now blank.
    pub fn name_empty(&mut self)
        ensures
            *final(self) == NameStatus::of(old(self).connected(), false),
    {
        match *self {
            NameStatus::Valid => *self = NameStatus::Connected,
            NameStatus::NonEmpty => *self = NameStatus::Invalid,
            NameStatus::Connected => {},
            NameStatus::Invalid => {},
        }
    }

    /// The name field now holds `text`.
    pub fn name_changed(&mut self, text: &str)
        ensures
            *final(self) == NameStatus::of(old(self).connected(), !is_blank(text@)),
    {
        if !blank(text) {
            self.name_non_empty();
        } else {
            self.name_empty();
        }
    }

    /// Whether the field may be submitted.
    pub fn is_valid(&self) -> (r: bool)
        ensures
            r == (self.connected() && self.filled()),
    {
        *self == NameStatus::Valid
    }
}

/// Whether a store may be added: both its name and its location are valid.
pub fn store_form_valid(name: NameStatus, location: NameStatus) -> (r: bool)
    ensures
        r == (name.connected() && name.filled() && location.connected() && location.filled()),
{
    name.is_valid() && location.is_valid()
}

} // verus!
