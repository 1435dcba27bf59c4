//! The extension traits, to bring in with one `use`.

pub use crate::option::{AssertNoneExt, AssertSomeAndExt, AssertSomeExt};
pub use crate::result::{AssertErrAndExt, AssertErrExt, AssertOkAndExt, AssertOkExt};
