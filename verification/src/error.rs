//! The ways in which a dataset can be refused.

use vstd::prelude::*;

verus! {

/// Why a period or a whole dataset was refused.
#[derive(Debug, Clone, Copy, PartialEq, Eq, Structural)]
pub enum LayoutError {
    /// A period whose end lies before its start.
    MalformedPeriod,
    /// The axis bounds are not a plain range of years.
    UnsupportedAxisShape,
    /// A point in time that lies outside the axis.
    OutOfBoundsPoint,
}

impl LayoutError {
    /// The sentence that `message` returns.
    pub open spec fn spec_message(&self) -> Seq<char> {
        match self {
            LayoutError::MalformedPeriod => "a time period must not end before it starts"@,
            LayoutError::UnsupportedAxisShape => "the axis must run from one bare year to another"@,
            LayoutError::OutOfBoundsPoint => "a point in time lies outside the axis"@,
        }
    }

    /// A sentence that says what was wrong, for showing to a person.
    pub fn message(&self) -> (text: &'static str)
        ensures
            text@ == self.spec_message(),
    {
        match self {
            LayoutError::MalformedPeriod => "a time period must not end before it starts",
            LayoutError::UnsupportedAxisShape => "the axis must run from one bare year to another",
            LayoutError::OutOfBoundsPoint => "a point in time lies outside the axis",
        }
    }
}

} // verus!
