//! Assertions on `Result`: that it is `Ok` or that it is `Err`, each alone or with a
//! condition that holds of the payload.

use vstd::prelude::*;
use crate::policy::{
    enforced, gated, is_enforced, BUILT_WITH_DEBUG_ASSERTIONS, BUILT_WITH_PASSTHROUGH,
};
use crate::violation::{describe, rendered, reports, Violation};

verus! {

/// Whether `verdict` is a rejection of `Err` where `Ok` was asserted, with the payload of the
/// `Err` rendered.
pub open spec fn err_rejected<E: core::fmt::Debug>(
    payload: E,
    verdict: Result<(), Violation>,
) -> bool {
    &&& verdict matches Err(Violation::ExpectedOk { found })
    &&& rendered(&payload, found)
}

/// Whether `verdict` is a rejection of `Ok` where `Err` was asserted, with the payload of the
/// `Ok` rendered.
pub open spec fn ok_rejected<T: core::fmt::Debug>(
    payload: T,
    verdict: Result<(), Violation>,
) -> bool {
    &&& verdict matches Err(Violation::ExpectedErr { found })
    &&& rendered(&payload, found)
}

/// Whether `verdict` is one on the assertion that `value` is `Ok`: `Ok` passes, `Err` is
/// rejected with its payload rendered.
pub open spec fn ok_judged<T, E: core::fmt::Debug>(
    value: Result<T, E>,
    verdict: Result<(), Violation>,
) -> bool {
    match value {
        Ok(_) => verdict is Ok,
        Err(payload) => err_rejected(payload, verdict),
    }
}

/// Whether `verdict` is one on the assertion that `value` is `Ok` and that `cond` holds of
/// its payload. `Err` is rejected as such whatever `cond` is. `Ok` passes where `cond` can
/// return true of the payload; where it can return false, `Ok` is rejected as unsatisfied,
/// with the payload rendered.
pub open spec fn ok_and_judged<
    T: core::fmt::Debug,
    E: core::fmt::Debug,
    F: FnOnce(&T) -> bool,
>(value: Result<T, E>, cond: F, verdict: Result<(), Violation>) -> bool {
    match value {
        Ok(payload) => match verdict {
            Ok(_) => cond.ensures((&payload,), true),
            Err(violation) => {
                &&& violation matches Violation::UnsatisfiedOk { found }
                &&& rendered(&payload, found)
                &&& cond.ensures((&payload,), false)
            },
        },
        Err(payload) => err_rejected(payload, verdict),
    }
}

/// Whether `verdict` is one on the assertion that `value` is `Err`: `Err` passes, `Ok` is
/// rejected with its payload rendered.
pub open spec fn err_judged<T: core::fmt::Debug, E>(
    value: Result<T, E>,
    verdict: Result<(), Violation>,
) -> bool {
    match value {
        Ok(payload) => ok_rejected(payload, verdict),
        Err(_) => verdict is Ok,
    }
}

/// Whether `verdict` is one on the assertion that `value` is `Err` and that `cond` holds of
/// its payload. `Ok` is rejected as such whatever `cond` is. `Err` passes where `cond` can
/// return true of the payload; where it can return false, `Err` is rejected as unsatisfied,
/// with the payload rendered.
pub open spec fn err_and_judged<
    T: core::fmt::Debug,
    E: core::fmt::Debug,
    F: FnOnce(&E) -> bool,
>(value: Result<T, E>, cond: F, verdict: Result<(), Violation>) -> bool {
    match value {
        Ok(payload) => ok_rejected(payload, verdict),
        Err(payload) => match verdict {
            Ok(_) => cond.ensures((&payload,), true),
            Err(violation) => {
                &&& violation matches Violation::UnsatisfiedErr { found }
                &&& rendered(&payload, found)
                &&& cond.ensures((&payload,), false)
            },
        },
    }
}

/// Judges the assertion that `value` is `Ok`.
pub fn judge_ok<T, E: core::fmt::Debug>(value: &Result<T, E>) -> (verdict: Result<(), Violation>)
    ensures
        ok_judged(*value, verdict),
{
    match value {
        Ok(_) => Ok(()),
        Err(payload) => Err(Violation::ExpectedOk { found: describe(payload) }),
    }
}

/// Judges the assertion that `value` is `Ok` and that `cond` holds of its payload.
///
/// `cond` is called once, on the payload of `Ok`. On `Err` it is not called, and nothing is
/// asked of it.
pub fn judge_ok_and<T: core::fmt::Debug, E: core::fmt::Debug>(
    value: &Result<T, E>,
    cond: impl FnOnce(&T) -> bool,
) -> (verdict: Result<(), Violation>)
    requires
        value matches Ok(payload) ==> cond.requires((&payload,)),
    ensures
        ok_and_judged(*value, cond, verdict),
{
    match value {
        Ok(payload) => {
            if cond(payload) {
                Ok(())
            } else {
                Err(Violation::UnsatisfiedOk { found: describe(payload) })
            }
        },
        Err(payload) => Err(Violation::ExpectedOk { found: describe(payload) }),
    }
}

/// Judges the assertion that `value` is `Err`.
pub fn judge_err<T: core::fmt::Debug, E>(value: &Result<T, E>) -> (verdict: Result<(), Violation>)
    ensures
        err_judged(*value, verdict),
{
    match value {
        Ok(payload) => Err(Violation::ExpectedErr { found: describe(payload) }),
        Err(_) => Ok(()),
    }
}

/// Judges the assertion that `value` is `Err` and that `cond` holds of its payload.
///
/// `cond` is called once, on the payload of `Err`. On `Ok` it is not called, and nothing is
/// asked of it.
pub fn judge_err_and<T: core::fmt::Debug, E: core::fmt::Debug>(
    value: &Result<T, E>,
    cond: impl FnOnce(&E) -> bool,
) -> (verdict: Result<(), Violation>)
    requires
        value matches Err(payload) ==> cond.requires((&payload,)),
    ensures
        err_and_judged(*value, cond, verdict),
{
    match value {
        Ok(payload) => Err(Violation::ExpectedErr { found: describe(payload) }),
        Err(payload) => {
            if cond(payload) {
                Ok(())
            } else {
                Err(Violation::UnsatisfiedErr { found: describe(payload) })
            }
        },
    }
}

/// Judges the debug-gated assertion that `value` is `Ok`, in the build with these two
/// switches.
pub fn debug_judge_ok<
    const DEBUG_ASSERTIONS: bool,
    const PASSTHROUGH: bool,
    T,
    E: core::fmt::Debug,
>(value: &Result<T, E>) -> (verdict: Result<(), Violation>)
    ensures
        gated(DEBUG_ASSERTIONS, PASSTHROUGH, ok_judged(*value, verdict), verdict),
{
    if is_enforced::<DEBUG_ASSERTIONS, PASSTHROUGH>() {
        judge_ok(value)
    } else {
        Ok(())
    }
}

/// Judges the debug-gated assertion that `value` is `Ok` and that `cond` holds of its
/// payload, in the build with these two switches.
///
/// In a build that does not enforce the assertion `cond` is not called, and nothing is asked
/// of it; in one that does, it is called as the always-checked judge calls it.
pub fn debug_judge_ok_and<
    const DEBUG_ASSERTIONS: bool,
    const PASSTHROUGH: bool,
    T: core::fmt::Debug,
    E: core::fmt::Debug,
>(value: &Result<T, E>, cond: impl FnOnce(&T) -> bool) -> (verdict: Result<(), Violation>)
    requires
        enforced(DEBUG_ASSERTIONS, PASSTHROUGH) ==> (value matches Ok(payload)
            ==> cond.requires((&payload,))),
    ensures
        gated(DEBUG_ASSERTIONS, PASSTHROUGH, ok_and_judged(*value, cond, verdict), verdict),
{
    if is_enforced::<DEBUG_ASSERTIONS, PASSTHROUGH>() {
        judge_ok_and(value, cond)
    } else {
        Ok(())
    }
}

/// Judges the debug-gated assertion that `value` is `Err`, in the build with these two
/// switches.
pub fn debug_judge_err<
    const DEBUG_ASSERTIONS: bool,
    const PASSTHROUGH: bool,
    T: core::fmt::Debug,
    E,
>(value: &Result<T, E>) -> (verdict: Result<(), Violation>)
    ensures
        gated(DEBUG_ASSERTIONS, PASSTHROUGH, err_judged(*value, verdict), verdict),
{
    if is_enforced::<DEBUG_ASSERTIONS, PASSTHROUGH>() {
        judge_err(value)
    } else {
        Ok(())
    }
}

/// Judges the debug-gated assertion that `value` is `Err` and that `cond` holds of its
/// payload, in the build with these two switches.
///
/// In a build that does not enforce the assertion `cond` is not called, and nothing is asked
/// of it; in one that does, it is called as the always-checked judge calls it.
pub fn debug_judge_err_and<
    const DEBUG_ASSERTIONS: bool,
    const PASSTHROUGH: bool,
    T: core::fmt::Debug,
    E: core::fmt::Debug,
>(value: &Result<T, E>, cond: impl FnOnce(&E) -> bool) -> (verdict: Result<(), Violation>)
    requires
        enforced(DEBUG_ASSERTIONS, PASSTHROUGH) ==> (value matches Err(payload)
            ==> cond.requires((&payload,))),
    ensures
        gated(DEBUG_ASSERTIONS, PASSTHROUGH, err_and_judged(*value, cond, verdict), verdict),
{
    if is_enforced::<DEBUG_ASSERTIONS, PASSTHROUGH>() {
        judge_err_and(value, cond)
    } else {
        Ok(())
    }
}

/// On `Err` the assertion of `Ok` with a condition is judged as the assertion without one:
/// the condition has no part in the verdict.
pub proof fn lemma_err_is_judged_without_the_condition<
    T: core::fmt::Debug,
    E: core::fmt::Debug,
    F: FnOnce(&T) -> bool,
>(payload: E, cond: F, verdict: Result<(), Violation>)
    ensures
        ok_and_judged(Err::<T, E>(payload), cond, verdict) <==> ok_judged(
            Err::<T, E>(payload),
            verdict,
        ),
{
}

/// On `Ok` the assertion of `Err` with a condition is judged as the assertion without one:
/// the condition has no part in the verdict.
pub proof fn lemma_ok_is_judged_without_the_condition<
    T: core::fmt::Debug,
    E: core::fmt::Debug,
    F: FnOnce(&E) -> bool,
>(payload: T, cond: F, verdict: Result<(), Violation>)
    ensures
        err_and_judged(Ok::<T, E>(payload), cond, verdict) <==> err_judged(
            Ok::<T, E>(payload),
            verdict,
        ),
{
}

/// `Err` is rejected where `Ok` is asserted, and the rejection reports the payload.
pub proof fn lemma_err_is_rejected_as_ok<T, E: core::fmt::Debug>(
    payload: E,
    verdict: Result<(), Violation>,
)
    requires
        ok_judged(Err::<T, E>(payload), verdict),
    ensures
        verdict is Err,
        reports(verdict->Err_0, &payload),
{
    verdict->Err_0.lemma_message_shows_payload();
}

/// `Ok` is rejected where `Err` is asserted, and the rejection reports the payload.
pub proof fn lemma_ok_is_rejected_as_err<T: core::fmt::Debug, E>(
    payload: T,
    verdict: Result<(), Violation>,
)
    requires
        err_judged(Ok::<T, E>(payload), verdict),
    ensures
        verdict is Err,
        reports(verdict->Err_0, &payload),
{
    verdict->Err_0.lemma_message_shows_payload();
}

/// Where `Ok` is rejected for the condition, the rejection reports the payload.
pub proof fn lemma_unsatisfied_ok_is_reported<
    T: core::fmt::Debug,
    E: core::fmt::Debug,
    F: FnOnce(&T) -> bool,
>(payload: T, cond: F, verdict: Result<(), Violation>)
    requires
        ok_and_judged(Ok::<T, E>(payload), cond, verdict),
        verdict is Err,
    ensures
        reports(verdict->Err_0, &payload),
{
    verdict->Err_0.lemma_message_shows_payload();
}

/// Where `Err` is rejected for the condition, the rejection reports the payload.
pub proof fn lemma_unsatisfied_err_is_reported<
    T: core::fmt::Debug,
    E: core::fmt::Debug,
    F: FnOnce(&E) -> bool,
>(payload: E, cond: F, verdict: Result<(), Violation>)
    requires
        err_and_judged(Err::<T, E>(payload), cond, verdict),
        verdict is Err,
    ensures
        reports(verdict->Err_0, &payload),
{
    verdict->Err_0.lemma_message_shows_payload();
}

/// Adds `assert_ok` and `debug_assert_ok` to a value that is `Ok` or `Err`.
pub trait AssertOkExt: Sized {
    /// Whether the value is `Ok`.
    spec fn holds_ok(&self) -> bool;

    /// Asserts that the value is `Ok`, and hands it back unchanged.
    fn assert_ok(self) -> (kept: Self)
        requires
            self.holds_ok(),
        ensures
            kept == self,
    ;

    /// Asserts that the value is `Ok` if this library's build enforces debug-gated
    /// assertions, and hands it back unchanged.
    fn debug_assert_ok(self) -> (kept: Self)
        requires
            enforced(BUILT_WITH_DEBUG_ASSERTIONS, BUILT_WITH_PASSTHROUGH) ==> self.holds_ok(),
        ensures
            kept == self,
    ;
}

/// Adds `assert_ok_and` and `debug_assert_ok_and` to a value that is `Ok` or `Err`.
pub trait AssertOkAndExt<T>: Sized {
    /// The payload of the value if it is `Ok`.
    spec fn ok_payload(&self) -> Option<T>;

    /// Asserts that the value is `Ok` and that `cond` holds of its payload, and hands the
    /// value back unchanged. `cond` is called once, on the payload, and has returned
    /// true.
    fn assert_ok_and<F: FnOnce(&T) -> bool>(self, cond: F) -> (kept: Self)
        requires
            self.ok_payload() is Some,
            cond.requires((&self.ok_payload()->0,)),
            forall|holds: bool| cond.ensures((&self.ok_payload()->0,), holds) ==> holds,
        ensures
            kept == self,
            cond.ensures((&self.ok_payload()->0,), true),
    ;

    /// Asserts that the value is `Ok` and that `cond` holds of its payload if this library's
    /// build enforces debug-gated assertions, and hands the value back unchanged. If the
    /// build does not enforce them, `cond` is not called.
    fn debug_assert_ok_and<F: FnOnce(&T) -> bool>(self, cond: F) -> (kept: Self)
        requires
            enforced(BUILT_WITH_DEBUG_ASSERTIONS, BUILT_WITH_PASSTHROUGH) ==> {
                &&& self.ok_payload() is Some
                &&& cond.requires((&self.ok_payload()->0,))
                &&& forall|holds: bool| cond.ensures((&self.ok_payload()->0,), holds) ==> holds
            },
        ensures
            kept == self,
    ;
}

/// Adds `assert_err` and `debug_assert_err` to a value that is `Ok` or `Err`.
pub trait AssertErrExt: Sized {
    /// Whether the value is `Err`.
    spec fn holds_err(&self) -> bool;

    /// Asserts that the value is `Err`, and hands it back unchanged.
    fn assert_err(self) -> (kept: Self)
        requires
            self.holds_err(),
        ensures
            kept == self,
    ;

    /// Asserts that the value is `Err` if this library's build enforces debug-gated
    /// assertions, and hands it back unchanged.
    fn debug_assert_err(self) -> (kept: Self)
        requires
            enforced(BUILT_WITH_DEBUG_ASSERTIONS, BUILT_WITH_PASSTHROUGH) ==> self.holds_err(),
        ensures
            kept == self,
    ;
}

/// Adds `assert_err_and` and `debug_assert_err_and` to a value that is `Ok` or `Err`.
pub trait AssertErrAndExt<T, E>: Sized {
    /// The payload of the value if it is `Err`.
    spec fn err_payload(&self) -> Option<E>;

    /// Asserts that the value is `Err` and that `cond` holds of its payload, and hands the
    /// value back unchanged. `cond` is called once, on the payload, and has returned
    /// true.
    fn assert_err_and<F: FnOnce(&E) -> bool>(self, cond: F) -> (kept: Self)
        requires
            self.err_payload() is Some,
            cond.requires((&self.err_payload()->0,)),
            forall|holds: bool| cond.ensures((&self.err_payload()->0,), holds) ==> holds,
        ensures
            kept == self,
            cond.ensures((&self.err_payload()->0,), true),
    ;

    /// Asserts that the value is `Err` and that `cond` holds of its payload if this
    /// library's build enforces debug-gated assertions, and hands the value back unchanged.
    /// If the build does not enforce them, `cond` is not called.
    fn debug_assert_err_and<F: FnOnce(&E) -> bool>(self, cond: F) -> (kept: Self)
        requires
            enforced(BUILT_WITH_DEBUG_ASSERTIONS, BUILT_WITH_PASSTHROUGH) ==> {
                &&& self.err_payload() is Some
                &&& cond.requires((&self.err_payload()->0,))
                &&& forall|holds: bool| cond.ensures((&self.err_payload()->0,), holds) ==> holds
            },
        ensures
            kept == self,
    ;
}

impl<T, E> AssertOkExt for Result<T, E> where E: core::fmt::Debug {
    open spec fn holds_ok(&self) -> bool {
        self is Ok
    }

    #[inline]
    fn assert_ok(self) -> (kept: Self) {
        let verdict = judge_ok(&self);
        assert(verdict is Ok);
        self
    }

    #[inline]
    fn debug_assert_ok(self) -> (kept: Self) {
        let verdict = debug_judge_ok::<BUILT_WITH_DEBUG_ASSERTIONS, BUILT_WITH_PASSTHROUGH, T, E>(
            &self,
        );
        assert(verdict is Ok);
        self
    }
}

impl<T, E> AssertOkAndExt<T> for Result<T, E> where T: core::fmt::Debug, E: core::fmt::Debug {
    open spec fn ok_payload(&self) -> Option<T> {
        match *self {
            Ok(payload) => Some(payload),
            Err(_) => None,
        }
    }

    #[inline]
    fn assert_ok_and<F: FnOnce(&T) -> bool>(self, cond: F) -> (kept: Self) {
        let verdict = judge_ok_and(&self, cond);
        assert(verdict is Ok);
        self
    }

    #[inline]
    fn debug_assert_ok_and<F: FnOnce(&T) -> bool>(self, cond: F) -> (kept: Self) {
        let verdict = debug_judge_ok_and::<
            BUILT_WITH_DEBUG_ASSERTIONS,
            BUILT_WITH_PASSTHROUGH,
            T,
            E,
        >(&self, cond);
        assert(verdict is Ok);
        self
    }
}

impl<T, E> AssertErrExt for Result<T, E> where T: core::fmt::Debug {
    open spec fn holds_err(&self) -> bool {
        self is Err
    }

    #[inline]
    fn assert_err(self) -> (kept: Self) {
        let verdict = judge_err(&self);
        assert(verdict is Ok);
        self
    }

    #[inline]
    fn debug_assert_err(self) -> (kept: Self) {
        let verdict = debug_judge_err::<BUILT_WITH_DEBUG_ASSERTIONS, BUILT_WITH_PASSTHROUGH, T, E>(
            &self,
        );
        assert(verdict is Ok);
        self
    }
}

impl<T, E> AssertErrAndExt<T, E> for Result<T, E> where
    T: core::fmt::Debug,
    E: core::fmt::Debug,
{
    open spec fn err_payload(&self) -> Option<E> {
        match *self {
            Ok(_) => None,
            Err(payload) => Some(payload),
        }
    }

    #[inline]
    fn assert_err_and<F: FnOnce(&E) -> bool>(self, cond: F) -> (kept: Self) {
        let verdict = judge_err_and(&self, cond);
        assert(verdict is Ok);
        self
    }

    #[inline]
    fn debug_assert_err_and<F: FnOnce(&E) -> bool>(self, cond: F) -> (kept: Self) {
        let verdict = debug_judge_err_and::<
            BUILT_WITH_DEBUG_ASSERTIONS,
            BUILT_WITH_PASSTHROUGH,
            T,
            E,
        >(&self, cond);
        assert(verdict is Ok);
        self
    }
}

} // verus!
