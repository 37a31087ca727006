//! What can go wrong in a calculation.

use vstd::prelude::*;

verus! {

/// A calculation that has no value.
#[derive(Debug)]
pub enum Error {
    DivisionByZero,
}

impl Error {
    /// The sentence that describes the error.
    pub open spec fn text(self) -> Seq<char> {
        match self {
            Error::DivisionByZero => "Attempted to divide by zero"@,
        }
    }

    /// The sentence that describes the error.
    pub fn to_string(&self) -> (sentence: String)
        ensures
            sentence@ == self.text(),
    {
        match self {
            Error::DivisionByZero => String::from_str("Attempted to divide by zero"),
        }
    }
}

} // verus!
