//! `should_be`: an equality assertion written as a method on the value under
//! test.
//!
//! Code that Verus checks has to show the two values equal before it may call
//! `should_be`, so there the assertion is settled before anything runs. Code
//! that Verus has not seen, a test suite most of all, gets the check at run
//! time: a mismatch stops the caller with the message `Expected <expected>
//! but was <actual>`, both values rendered by `Debug`.

use std::fmt::Debug;
use vstd::laws_eq::obeys_concrete_eq;
use vstd::prelude::*;
use vstd::std_specs::cmp::PartialEqSpec;
use vstd::string::*;

verus! {

/// The text reported for a value that was `actual` where `expected` was
/// wanted. The wanted value is named first, although the assertion reads
/// `actual.should_be(expected)`.
pub open spec fn mismatch_text(expected: Seq<char>, actual: Seq<char>) -> Seq<char> {
    "Expected "@ + expected + " but was "@ + actual
}

/// Builds the message for a mismatch from the renderings of the two values.
pub fn mismatch_message(expected: &str, actual: &str) -> (message: String)
    ensures
        message@ == mismatch_text(expected@, actual@),
{
    let mut message = String::from_str("Expected ");
    message.append(expected);
    message.append(" but was ");
    message.append(actual);
    message
}

/// Renders `value` as `format!("{:?}", value)` does, through the type's own
/// `Debug` implementation. Nothing is claimed of the text: it is whatever
/// that implementation writes.
#[verifier::external_body]
fn debug_text<T: Debug>(value: &T) -> (text: String) {
    format!("{:?}", value)
}

/// Compares `actual` with `expected` by the type's `==` and reports what is
/// wrong: `None` where they are equal, else the message that names both,
/// `expected` first.
///
/// Which of the two answers comes is stated for the types whose `==` Verus
/// has a meaning for; on any other type it is the answer of that type's `eq`.
/// The renderings are made only when the values differ.
pub fn find_mismatch<T: PartialEq + Debug>(actual: &T, expected: &T) -> (report: Option<String>)
    ensures
        T::obeys_eq_spec() ==> (report is None <==> actual.eq_spec(expected)),
        report matches Some(message) ==> exists|wanted: Seq<char>, found: Seq<char>|
            message@ == mismatch_text(wanted, found),
{
    if *actual == *expected {
        None
    } else {
        let wanted = debug_text(expected);
        let found = debug_text(actual);
        let message = mismatch_message(wanted.as_str(), found.as_str());
        assert(message@ == mismatch_text(wanted@, found@));
        Some(message)
    }
}

/// Collection of equality assertions.
pub trait EqualityAssertion<T> {
    /// Whether the receiver counts as equal to `expected`.
    spec fn is_equal_to(&self, expected: &T) -> bool;

    /// Verifies values are equal.
    ///
    /// Both values are consumed. The call returns nothing and changes
    /// nothing; it is made for the requirement it carries.
    fn should_be(self, expected: T)
        requires
            self.is_equal_to(&expected),
    ;
}

impl<T: PartialEq + Debug> EqualityAssertion<T> for T {
    /// Equal by the type's `==`, on a type whose `==` Verus has a meaning for.
    open spec fn is_equal_to(&self, expected: &T) -> bool {
        T::obeys_eq_spec() && self.eq_spec(expected)
    }

    /// Uses `PartialEq` to compare the values.
    fn should_be(self, expected: T) {
        if let Some(message) = find_mismatch(&self, &expected) {
            // Out of reach of every caller that met the requirement. A caller
            // that Verus has not checked ends here, with the message.
            let nothing: Option<()> = None;
            nothing.expect(message.as_str());
        }
    }
}

/// On a type whose `==` is equality of values, `is_equal_to` is that
/// equality. So every value passes against itself or a copy of itself, and
/// no two different values pass.
pub proof fn lemma_equal_to_means_same<T: PartialEq + Debug>(actual: T, expected: T)
    requires
        obeys_concrete_eq::<T>(),
    ensures
        actual.is_equal_to(&actual),
        actual.is_equal_to(&expected) <==> actual == expected,
{
    reveal(obeys_concrete_eq);
}

} // verus!
