//! Assertions on `Option`: that it is `Some`, that it is `Some` and a condition holds of its
//! payload, that it is `None`.

use vstd::prelude::*;
use crate::policy::{
    enforced, gated, is_enforced, BUILT_WITH_DEBUG_ASSERTIONS, BUILT_WITH_PASSTHROUGH,
};
use crate::violation::{describe, rendered, reports, Violation};

verus! {

/// The verdict on the assertion that `value` is `Some`.
pub open spec fn some_verdict<T>(value: Option<T>) -> Result<(), Violation> {
    match value {
        Some(_) => Ok(()),
        None => Err(Violation::ExpectedSome),
    }
}

/// Whether `verdict` is one on the assertion that `value` is `Some` and that `cond` holds of
/// its payload. `None` is rejected whatever `cond` is. `Some` passes where `cond` can return
/// true of the payload; where it can return false, `Some` is rejected as unsatisfied, with
/// the payload rendered.
pub open spec fn some_and_judged<T: core::fmt::Debug, F: FnOnce(&T) -> bool>(
    value: Option<T>,
    cond: F,
    verdict: Result<(), Violation>,
) -> bool {
    match value {
        Some(payload) => match verdict {
            Ok(_) => cond.ensures((&payload,), true),
            Err(violation) => {
                &&& violation matches Violation::UnsatisfiedSome { found }
                &&& rendered(&payload, found)
                &&& cond.ensures((&payload,), false)
            },
        },
        None => verdict == Err::<(), Violation>(Violation::ExpectedSome),
    }
}

/// Whether `verdict` is one on the assertion that `value` is `None`: `None` passes, `Some`
/// is rejected with its payload rendered.
pub open spec fn none_judged<T: core::fmt::Debug>(
    value: Option<T>,
    verdict: Result<(), Violation>,
) -> bool {
    match value {
        Some(payload) => {
            &&& verdict matches Err(Violation::ExpectedNone { found })
            &&& rendered(&payload, found)
        },
        None => verdict is Ok,
    }
}

/// Judges the assertion that `value` is `Some`.
pub fn judge_some<T>(value: &Option<T>) -> (verdict: Result<(), Violation>)
    ensures
        verdict == some_verdict(*value),
{
    match value {
        Some(_) => Ok(()),
        None => Err(Violation::ExpectedSome),
    }
}

/// Judges the assertion that `value` is `Some` and that `cond` holds of its payload.
///
/// `cond` is called once, on the payload of `Some`. On `None` it is not called, and nothing
/// is asked of it.
pub fn judge_some_and<T: core::fmt::Debug>(
    value: &Option<T>,
    cond: impl FnOnce(&T) -> bool,
) -> (verdict: Result<(), Violation>)
    requires
        value matches Some(payload) ==> cond.requires((&payload,)),
    ensures
        some_and_judged(*value, cond, verdict),
{
    match value {
        Some(payload) => {
            if cond(payload) {
                Ok(())
            } else {
                Err(Violation::UnsatisfiedSome { found: describe(payload) })
            }
        },
        None => Err(Violation::ExpectedSome),
    }
}

/// Judges the assertion that `value` is `None`.
pub fn judge_none<T: core::fmt::Debug>(value: &Option<T>) -> (verdict: Result<(), Violation>)
    ensures
        none_judged(*value, verdict),
{
    match value {
        Some(payload) => Err(Violation::ExpectedNone { found: describe(payload) }),
        None => Ok(()),
    }
}

/// Judges the debug-gated assertion that `value` is `Some`, in the build with these two
/// switches.
pub fn debug_judge_some<const DEBUG_ASSERTIONS: bool, const PASSTHROUGH: bool, T>(
    value: &Option<T>,
) -> (verdict: Result<(), Violation>)
    ensures
        gated(DEBUG_ASSERTIONS, PASSTHROUGH, verdict == some_verdict(*value), verdict),
{
    if is_enforced::<DEBUG_ASSERTIONS, PASSTHROUGH>() {
        judge_some(value)
    } else {
        Ok(())
    }
}

/// Judges the debug-gated assertion that `value` is `Some` and that `cond` holds of its
/// payload, in the build with these two switches.
///
/// In a build that does not enforce the assertion `cond` is not called, and nothing is asked
/// of it; in one that does, it is called as the always-checked judge calls it.
pub fn debug_judge_some_and<
    const DEBUG_ASSERTIONS: bool,
    const PASSTHROUGH: bool,
    T: core::fmt::Debug,
>(value: &Option<T>, cond: impl FnOnce(&T) -> bool) -> (verdict: Result<(), Violation>)
    requires
        enforced(DEBUG_ASSERTIONS, PASSTHROUGH) ==> (value matches Some(payload)
            ==> cond.requires((&payload,))),
    ensures
        gated(DEBUG_ASSERTIONS, PASSTHROUGH, some_and_judged(*value, cond, verdict), verdict),
{
    if is_enforced::<DEBUG_ASSERTIONS, PASSTHROUGH>() {
        judge_some_and(value, cond)
    } else {
        Ok(())
    }
}

/// Judges the debug-gated assertion that `value` is `None`, in the build with these two
/// switches.
pub fn debug_judge_none<
    const DEBUG_ASSERTIONS: bool,
    const PASSTHROUGH: bool,
    T: core::fmt::Debug,
>(value: &Option<T>) -> (verdict: Result<(), Violation>)
    ensures
        gated(DEBUG_ASSERTIONS, PASSTHROUGH, none_judged(*value, verdict), verdict),
{
    if is_enforced::<DEBUG_ASSERTIONS, PASSTHROUGH>() {
        judge_none(value)
    } else {
        Ok(())
    }
}

/// `None` is rejected where `Some` is asserted, and with a condition it is judged as
/// without one: the condition has no part in the verdict.
pub proof fn lemma_none_is_judged_without_the_condition<
    T: core::fmt::Debug,
    F: FnOnce(&T) -> bool,
>(cond: F, verdict: Result<(), Violation>)
    ensures
        some_verdict(None::<T>) is Err,
        some_and_judged(None::<T>, cond, verdict) <==> verdict == some_verdict(None::<T>),
{
}

/// `Some` is rejected where `None` is asserted, and the rejection reports the payload.
pub proof fn lemma_some_is_rejected_as_none<T: core::fmt::Debug>(
    payload: T,
    verdict: Result<(), Violation>,
)
    requires
        none_judged(Some(payload), verdict),
    ensures
        verdict is Err,
        reports(verdict->Err_0, &payload),
{
    verdict->Err_0.lemma_message_shows_payload();
}

/// Where `Some` is rejected for the condition, the rejection reports the payload.
pub proof fn lemma_unsatisfied_some_is_reported<T: core::fmt::Debug, F: FnOnce(&T) -> bool>(
    payload: T,
    cond: F,
    verdict: Result<(), Violation>,
)
    requires
        some_and_judged(Some(payload), cond, verdict),
        verdict is Err,
    ensures
        reports(verdict->Err_0, &payload),
{
    verdict->Err_0.lemma_message_shows_payload();
}

/// Adds `assert_some` and `debug_assert_some` to a value that is `Some` or `None`.
pub trait AssertSomeExt: Sized {
    /// Whether the value is `Some`.
    spec fn holds_some(&self) -> bool;

    /// Asserts that the value is `Some`, and hands it back unchanged.
    fn assert_some(self) -> (kept: Self)
        requires
            self.holds_some(),
        ensures
            kept == self,
    ;

    /// Asserts that the value is `Some` if this library's build enforces debug-gated
    /// assertions, and hands it back unchanged.
    fn debug_assert_some(self) -> (kept: Self)
        requires
            enforced(BUILT_WITH_DEBUG_ASSERTIONS, BUILT_WITH_PASSTHROUGH) ==> self.holds_some(),
        ensures
            kept == self,
    ;
}

/// Adds `assert_some_and` and `debug_assert_some_and` to a value that is `Some` or `None`.
pub trait AssertSomeAndExt<T>: Sized {
    /// The value as an `Option` of its payload.
    spec fn some_payload(&self) -> Option<T>;

    /// Asserts that the value is `Some` and that `cond` holds of its payload, and hands the
    /// value back unchanged. `cond` is called once, on the payload, and has returned
    /// true.
    fn assert_some_and<F: FnOnce(&T) -> bool>(self, cond: F) -> (kept: Self)
        requires
            self.some_payload() is Some,
            cond.requires((&self.some_payload()->0,)),
            forall|holds: bool| cond.ensures((&self.some_payload()->0,), holds) ==> holds,
        ensures
            kept == self,
            cond.ensures((&self.some_payload()->0,), true),
    ;

    /// Asserts that the value is `Some` and that `cond` holds of its payload if this
    /// library's build enforces debug-gated assertions, and hands the value back unchanged.
    /// If the build does not enforce them, `cond` is not called.
    fn debug_assert_some_and<F: FnOnce(&T) -> bool>(self, cond: F) -> (kept: Self)
        requires
            enforced(BUILT_WITH_DEBUG_ASSERTIONS, BUILT_WITH_PASSTHROUGH) ==> {
                &&& self.some_payload() is Some
                &&& cond.requires((&self.some_payload()->0,))
                &&& forall|holds: bool|
                    cond.ensures((&self.some_payload()->0,), holds) ==> holds
            },
        ensures
            kept == self,
    ;
}

/// Adds `assert_none` and `debug_assert_none` to a value that is `Some` or `None`.
pub trait AssertNoneExt: Sized {
    /// Whether the value is `None`.
    spec fn holds_none(&self) -> bool;

    /// Asserts that the value is `None`, and hands it back unchanged.
    fn assert_none(self) -> (kept: Self)
        requires
            self.holds_none(),
        ensures
            kept == self,
    ;

    /// Asserts that the value is `None` if this library's build enforces debug-gated
    /// assertions, and hands it back unchanged.
    fn debug_assert_none(self) -> (kept: Self)
        requires
            enforced(BUILT_WITH_DEBUG_ASSERTIONS, BUILT_WITH_PASSTHROUGH) ==> self.holds_none(),
        ensures
            kept == self,
    ;
}

impl<T> AssertSomeExt for Option<T> {
    open spec fn holds_some(&self) -> bool {
        self is Some
    }

    #[inline]
    fn assert_some(self) -> (kept: Self) {
        let verdict = judge_some(&self);
        assert(verdict is Ok);
        self
    }

    #[inline]
    fn debug_assert_some(self) -> (kept: Self) {
        let verdict = debug_judge_some::<BUILT_WITH_DEBUG_ASSERTIONS, BUILT_WITH_PASSTHROUGH, T>(
            &self,
        );
        assert(verdict is Ok);
        self
    }
}

impl<T> AssertSomeAndExt<T> for Option<T> where T: core::fmt::Debug {
    open spec fn some_payload(&self) -> Option<T> {
        *self
    }

    #[inline]
    fn assert_some_and<F: FnOnce(&T) -> bool>(self, cond: F) -> (kept: Self) {
        let verdict = judge_some_and(&self, cond);
        assert(verdict is Ok);
        self
    }

    #[inline]
    fn debug_assert_some_and<F: FnOnce(&T) -> bool>(self, cond: F) -> (kept: Self) {
        let verdict = debug_judge_some_and::<
            BUILT_WITH_DEBUG_ASSERTIONS,
            BUILT_WITH_PASSTHROUGH,
            T,
        >(&self, cond);
        assert(verdict is Ok);
        self
    }
}

impl<T> AssertNoneExt for Option<T> where T: core::fmt::Debug {
    open spec fn holds_none(&self) -> bool {
        self is None
    }

    #[inline]
    fn assert_none(self) -> (kept: Self) {
        let verdict = judge_none(&self);
        assert(verdict is Ok);
        self
    }

    #[inline]
    fn debug_assert_none(self) -> (kept: Self) {
        let verdict = debug_judge_none::<BUILT_WITH_DEBUG_ASSERTIONS, BUILT_WITH_PASSTHROUGH, T>(
            &self,
        );
        assert(verdict is Ok);
        self
    }
}

} // verus!
