//! The error that a parity check reports.

use vstd::prelude::*;
use vstd::string::*;
use crate::text::{digit_char, digit_text};

verus! {

/// An error indicating that a message does not have the correct parity.
///
/// It records the two values of the parity bit, each 0 or 1: the one that the other bits of the
/// message call for and the one that the message holds.
#[derive(Debug)]
pub struct ParityError {
    /// Expected parity bit (based on other bits), 0 or 1
    expected: u8,
    /// Actual parity bit (in the message), 0 or 1
    actual: u8,
}

/// The text of a parity error with the given parity bits.
pub open spec fn parity_error_text(expected: u8, actual: u8) -> Seq<char> {
    "incorrect parity: expected "@ + seq![digit_char(expected as int)] + ", actual "@
        + seq![digit_char(actual as int)]
}

impl ParityError {
    /// Both recorded values are parity bits.
    #[verifier::type_invariant]
    spec fn well_formed(self) -> bool {
        self.expected <= 1 && self.actual <= 1
    }

    /// The parity bit that the other bits of the message call for.
    pub closed spec fn spec_expected(&self) -> u8 {
        self.expected
    }

    /// The parity bit that the message holds.
    pub closed spec fn spec_actual(&self) -> u8 {
        self.actual
    }

    pub(crate) fn new(expected: u8, actual: u8) -> (error: Self)
        requires
            expected <= 1,
            actual <= 1,
        ensures
            error.spec_expected() == expected,
            error.spec_actual() == actual,
    {
        ParityError { expected, actual }
    }

    /// Returns the expected parity bit, 0 or 1.
    #[verifier::when_used_as_spec(spec_expected)]
    pub fn expected(&self) -> (bit: u8)
        ensures
            bit == self.spec_expected(),
            bit <= 1,
    {
        proof {
            use_type_invariant(self);
        }
        self.expected
    }

    /// Returns the actual parity bit, 0 or 1.
    #[verifier::when_used_as_spec(spec_actual)]
    pub fn actual(&self) -> (bit: u8)
        ensures
            bit == self.spec_actual(),
            bit <= 1,
    {
        proof {
            use_type_invariant(self);
        }
        self.actual
    }

    /// Returns the message of this error, which states both parity bits.
    pub fn to_string(&self) -> (text: String)
        ensures
            text@ == parity_error_text(self.expected(), self.actual()),
    {
        proof {
            use_type_invariant(self);
        }
        let mut text = String::from_str("incorrect parity: expected ");
        text.append(digit_text(self.expected));
        text.append(", actual ");
        text.append(digit_text(self.actual));
        text
    }
}

} // verus!
