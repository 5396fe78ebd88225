use vstd::prelude::*;
use vstd::string::*;

verus! {

/// Why a number could not be written: its size is not below the ceiling
/// of the counting method.
#[derive(Debug, Copy, Clone, Eq, PartialEq, Hash, Structural)]
pub enum NumberToChineseError {
    /// The number is positive and too large.
    Overflow,
    /// The number is negative and too large in size.
    Underflow,
}

impl NumberToChineseError {
    /// The words that describe the error.
    pub open spec fn message(self) -> Seq<char> {
        match self {
            NumberToChineseError::Overflow => "number is too large"@,
            NumberToChineseError::Underflow => "number is too small"@,
        }
    }

    /// The words that describe the error.
    pub fn to_string(&self) -> (text: String)
        ensures
            text@ == self.message(),
    {
        match self {
            NumberToChineseError::Overflow => String::from_str("number is too large"),
            NumberToChineseError::Underflow => String::from_str("number is too small"),
        }
    }
}

} // verus!
