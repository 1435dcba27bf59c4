//! Assertions that chain: methods on `Option` and `Result` that assert which variant a value
//! is, and a condition on its payload, and hand the value back for the next call.
//!
//! Each assertion comes in two forms. The fluent method (`assert_some`, `assert_ok_and`, ..)
//! has the assertion as its precondition and returns the value unchanged. The judge
//! (`judge_some`, `judge_ok_and`, ..) decides the assertion on any value: it returns `Ok`, or
//! the [`violation::Violation`] whose message a caller aborts with.
//!
//! A `debug_` assertion is enforced only in a build that has debug assertions and has not set
//! the passthrough override (see [`policy`]). Everywhere else it lets every value pass and
//! never calls the condition.

pub mod option;
pub mod policy;
pub mod prelude;
pub mod result;
pub mod violation;
