//! When a debug-gated assertion is enforced.
//!
//! Two switches of a build decide it: whether the build has debug assertions, and whether it
//! sets the passthrough override. The `debug_judge_` functions take both as constant
//! parameters, so that each build compiles either the always-checked judge or nothing.
//!
//! What a fluent method asks of a verified caller cannot depend on the build that will
//! compile the caller. The fluent `debug_` methods are therefore fixed to one build, the one
//! that has neither switch: there they ask nothing and hand every value back.

use vstd::prelude::*;
use crate::violation::Violation;

verus! {

/// Whether the fluent `debug_` methods are built with debug assertions: they are not.
pub const BUILT_WITH_DEBUG_ASSERTIONS: bool = false;

/// Whether the fluent `debug_` methods are built with the passthrough override: they are
/// not.
pub const BUILT_WITH_PASSTHROUGH: bool = false;

/// Whether a build enforces its debug-gated assertions: it does when it has debug assertions
/// and the passthrough override is not set.
pub open spec fn enforced(debug_assertions: bool, passthrough: bool) -> bool {
    debug_assertions && !passthrough
}

/// What a debug-gated judge returns in a build, where `judged` says whether `verdict` is one
/// that the always-checked judge of the same assertion returns: in a build that enforces them
/// the same verdicts, in any other build `Ok` alone.
pub open spec fn gated(
    debug_assertions: bool,
    passthrough: bool,
    judged: bool,
    verdict: Result<(), Violation>,
) -> bool {
    if enforced(debug_assertions, passthrough) {
        judged
    } else {
        verdict is Ok
    }
}

/// Whether the build with these two switches enforces its debug-gated assertions. Both are
/// constants, so the answer is known where the call is compiled.
pub fn is_enforced<const DEBUG_ASSERTIONS: bool, const PASSTHROUGH: bool>() -> (on: bool)
    ensures
        on == enforced(DEBUG_ASSERTIONS, PASSTHROUGH),
{
    DEBUG_ASSERTIONS && !PASSTHROUGH
}

/// The build of the fluent `debug_` methods does not enforce debug-gated assertions.
pub proof fn lemma_fluent_build_is_not_enforced()
    ensures
        !enforced(BUILT_WITH_DEBUG_ASSERTIONS, BUILT_WITH_PASSTHROUGH),
{
}

/// With debug assertions and without the passthrough override, a debug-gated judge returns
/// what the always-checked judge returns.
pub proof fn lemma_gated_when_enforced(judged: bool, verdict: Result<(), Violation>)
    ensures
        gated(true, false, judged, verdict) == judged,
{
}

/// Without debug assertions, or with the passthrough override, a debug-gated judge lets
/// every value pass, one that the always-checked judge rejects too.
pub proof fn lemma_gated_when_not_enforced(
    debug_assertions: bool,
    passthrough: bool,
    judged: bool,
    verdict: Result<(), Violation>,
)
    requires
        !debug_assertions || passthrough,
    ensures
        gated(debug_assertions, passthrough, judged, verdict) == (verdict is Ok),
{
}

} // verus!
