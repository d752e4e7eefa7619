//! Fluent equality assertions: `actual.should_be(expected)`.

pub mod equality_assertion;

pub use equality_assertion::EqualityAssertion;
