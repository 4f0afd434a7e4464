//! The release year of a recording.

use vstd::prelude::*;
use vstd::std_specs::convert::TryFromSpecImpl;

verus! {

/// A release year: a whole number from 1 to 65535.
#[derive(Debug, Clone, Copy, PartialEq, Eq, Structural, Hash)]
pub struct Year {
    value: u16,
}

/// Why a number is no year.
#[derive(Debug, Clone, Copy, PartialEq, Eq, Structural, Hash)]
pub enum YearError {
    /// The number is zero or negative, or does not fit in sixteen bits.
    Invalid,
}

impl YearError {
    /// The error in words.
    pub open spec fn message_spec(self) -> Seq<char> {
        "Year must be greater than 0"@
    }

    /// The error in words.
    pub fn message(&self) -> (result: String)
        ensures
            result@ == self.message_spec(),
    {
        "Year must be greater than 0".to_owned()
    }
}

impl View for Year {
    type V = int;

    closed spec fn view(&self) -> int {
        self.value as int
    }
}

impl Year {
    /// Only positive years exist.
    #[verifier::type_invariant]
    spec fn positive(self) -> bool {
        self.value > 0
    }

    /// Whether `year` can be held as a `Year`.
    pub open spec fn accepts(year: int) -> bool {
        0 < year <= u16::MAX
    }

    /// The year `year`, which must not be zero.
    pub fn new(year: u16) -> (result: Self)
        requires
            year > 0,
        ensures
            result@ == year,
    {
        Year { value: year }
    }

    /// The year as a number.
    pub fn value(&self) -> (result: u16)
        ensures
            result == self@,
            result > 0,
    {
        proof {
            use_type_invariant(self);
        }
        self.value
    }
}

impl TryFrom<i32> for Year {
    type Error = YearError;

    /// The year `year`, unless it is zero, negative or beyond sixteen bits.
    fn try_from(year: i32) -> (result: Result<Self, YearError>)
        ensures
            Self::accepts(year as int) ==> (result matches Ok(y) && y@ == year),
            !Self::accepts(year as int) ==> result == Err::<Self, YearError>(YearError::Invalid),
    {
        if year <= 0 || year > 65535 {
            return Err(YearError::Invalid);
        }
        Ok(Year { value: year as u16 })
    }
}

impl TryFromSpecImpl<i32> for Year {
    open spec fn obeys_try_from_spec() -> bool {
        true
    }

    closed spec fn try_from_spec(year: i32) -> Result<Self, YearError> {
        if Self::accepts(year as int) {
            Ok(Year { value: year as u16 })
        } else {
            Err(YearError::Invalid)
        }
    }
}

} // verus!
