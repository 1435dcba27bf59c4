use chain_assertions::option::{
    debug_judge_none, debug_judge_some, debug_judge_some_and, judge_none, judge_some,
    judge_some_and,
};
use chain_assertions::policy::is_enforced;
use chain_assertions::result::{
    debug_judge_err, debug_judge_err_and, debug_judge_ok, debug_judge_ok_and, judge_err,
    judge_err_and, judge_ok, judge_ok_and,
};
use chain_assertions::violation::Violation;
use std::cell::Cell;

#[derive(PartialEq)]
struct NonDebuggable;

#[derive(Debug, PartialEq)]
struct Debuggable;

#[derive(Debug)]
struct Point {
    x: i32,
    y: i32,
}

fn found(text: &str) -> String {
    String::from(text)
}

#[test]
fn some_passes_as_some() {
    assert_eq!(judge_some(&Some(NonDebuggable)), Ok(()));
    assert_eq!(judge_some(&Some(0)), Ok(()));
}

#[test]
fn none_is_rejected_as_some() {
    let x: Option<NonDebuggable> = None;
    assert_eq!(judge_some(&x), Err(Violation::ExpectedSome));
}

#[test]
fn none_passes_as_none() {
    let x: Option<Debuggable> = None;
    assert_eq!(judge_none(&x), Ok(()));
}

#[test]
fn some_is_rejected_as_none_with_its_payload() {
    assert_eq!(
        judge_none(&Some(Debuggable)),
        Err(Violation::ExpectedNone { found: found("Debuggable") })
    );
    assert_eq!(
        judge_none(&Some(21)),
        Err(Violation::ExpectedNone { found: found("21") })
    );
}

#[test]
fn some_with_a_true_condition_passes() {
    assert_eq!(judge_some_and(&Some(21), |x| x >= &20), Ok(()));
    assert_eq!(judge_some_and(&Some(20), |x| x >= &20), Ok(()));
}

#[test]
fn some_with_a_false_condition_is_rejected_with_its_payload() {
    assert_eq!(
        judge_some_and(&Some(19), |x| x >= &20),
        Err(Violation::UnsatisfiedSome { found: found("19") })
    );
}

#[test]
fn none_is_rejected_before_the_condition_is_called() {
    let calls = Cell::new(0);
    let x: Option<i32> = None;
    let verdict = judge_some_and(&x, |_| {
        calls.set(calls.get() + 1);
        true
    });
    assert_eq!(verdict, Err(Violation::ExpectedSome));
    assert_eq!(calls.get(), 0);
}

#[test]
fn the_condition_is_called_once_on_some() {
    let calls = Cell::new(0);
    let verdict = judge_some_and(&Some(19), |x| {
        calls.set(calls.get() + 1);
        x >= &20
    });
    assert_eq!(verdict, Err(Violation::UnsatisfiedSome { found: found("19") }));
    assert_eq!(calls.get(), 1);

    let verdict = judge_some_and(&Some(21), |x| {
        calls.set(calls.get() + 1);
        x >= &20
    });
    assert_eq!(verdict, Ok(()));
    assert_eq!(calls.get(), 2);
}

#[test]
fn ok_passes_as_ok() {
    let x: Result<NonDebuggable, Debuggable> = Ok(NonDebuggable);
    assert_eq!(judge_ok(&x), Ok(()));
}

#[test]
fn err_is_rejected_as_ok_with_its_payload() {
    let x: Result<NonDebuggable, Debuggable> = Err(Debuggable);
    assert_eq!(
        judge_ok(&x),
        Err(Violation::ExpectedOk { found: found("Debuggable") })
    );
    let x: Result<i32, &str> = Err("oops");
    assert_eq!(
        judge_ok(&x),
        Err(Violation::ExpectedOk { found: found("\"oops\"") })
    );
}

#[test]
fn ok_with_a_true_condition_passes() {
    let x: Result<i32, Debuggable> = Ok(42);
    assert_eq!(judge_ok_and(&x, |x| x == &42), Ok(()));
}

#[test]
fn ok_with_a_false_condition_is_rejected_with_its_payload() {
    let x: Result<i32, Debuggable> = Ok(42);
    assert_eq!(
        judge_ok_and(&x, |x| x == &21),
        Err(Violation::UnsatisfiedOk { found: found("42") })
    );
    let x: Result<i32, Debuggable> = Ok(19);
    assert_eq!(
        judge_ok_and(&x, |x| x >= &20),
        Err(Violation::UnsatisfiedOk { found: found("19") })
    );
}

#[test]
fn err_is_rejected_as_ok_before_the_condition_is_called() {
    let calls = Cell::new(0);
    let x: Result<i32, Debuggable> = Err(Debuggable);
    let verdict = judge_ok_and(&x, |x| {
        calls.set(calls.get() + 1);
        x == &21
    });
    assert_eq!(verdict, Err(Violation::ExpectedOk { found: found("Debuggable") }));
    assert_eq!(calls.get(), 0);
}

#[test]
fn err_passes_as_err() {
    let x: Result<Debuggable, NonDebuggable> = Err(NonDebuggable);
    assert_eq!(judge_err(&x), Ok(()));
}

#[test]
fn ok_is_rejected_as_err_with_its_payload() {
    let x: Result<Debuggable, i32> = Ok(Debuggable);
    assert_eq!(
        judge_err(&x),
        Err(Violation::ExpectedErr { found: found("Debuggable") })
    );
    let x: Result<Point, i32> = Ok(Point { x: 1, y: -2 });
    assert_eq!(
        judge_err(&x),
        Err(Violation::ExpectedErr { found: found("Point { x: 1, y: -2 }") })
    );
}

#[test]
fn err_with_a_true_condition_passes() {
    let x: Result<Debuggable, i32> = Err(21);
    assert_eq!(judge_err_and(&x, |x| x == &21), Ok(()));
}

#[test]
fn err_with_a_false_condition_is_rejected_with_its_payload() {
    let x: Result<Debuggable, i32> = Err(41);
    assert_eq!(
        judge_err_and(&x, |x| x == &21),
        Err(Violation::UnsatisfiedErr { found: found("41") })
    );
}

#[test]
fn ok_is_rejected_as_err_before_the_condition_is_called() {
    let calls = Cell::new(0);
    let x: Result<Debuggable, i32> = Ok(Debuggable);
    let verdict = judge_err_and(&x, |x| {
        calls.set(calls.get() + 1);
        x == &21
    });
    assert_eq!(verdict, Err(Violation::ExpectedErr { found: found("Debuggable") }));
    assert_eq!(calls.get(), 0);
}

#[test]
fn only_debug_assertions_without_passthrough_enforce() {
    assert!(is_enforced::<true, false>());
    assert!(!is_enforced::<true, true>());
    assert!(!is_enforced::<false, false>());
    assert!(!is_enforced::<false, true>());
}

#[test]
fn an_enforcing_build_judges_options_as_the_always_checked_judges_do() {
    let none: Option<i32> = None;
    assert_eq!(debug_judge_some::<true, false, i32>(&Some(1)), judge_some(&Some(1)));
    assert_eq!(debug_judge_some::<true, false, i32>(&none), judge_some(&none));
    assert_eq!(debug_judge_some::<true, false, i32>(&none), Err(Violation::ExpectedSome));
    assert_eq!(debug_judge_none::<true, false, i32>(&none), Ok(()));
    assert_eq!(
        debug_judge_none::<true, false, i32>(&Some(21)),
        Err(Violation::ExpectedNone { found: found("21") })
    );
    assert_eq!(debug_judge_some_and::<true, false, i32>(&Some(21), |x| x >= &20), Ok(()));
    assert_eq!(
        debug_judge_some_and::<true, false, i32>(&Some(19), |x| x >= &20),
        Err(Violation::UnsatisfiedSome { found: found("19") })
    );
    assert_eq!(
        debug_judge_some_and::<true, false, i32>(&none, |x| x >= &20),
        Err(Violation::ExpectedSome)
    );
}

#[test]
fn an_enforcing_build_judges_results_as_the_always_checked_judges_do() {
    let ok: Result<i32, i32> = Ok(21);
    let err: Result<i32, i32> = Err(41);
    assert_eq!(debug_judge_ok::<true, false, i32, i32>(&ok), Ok(()));
    assert_eq!(
        debug_judge_ok::<true, false, i32, i32>(&err),
        Err(Violation::ExpectedOk { found: found("41") })
    );
    assert_eq!(debug_judge_err::<true, false, i32, i32>(&err), Ok(()));
    assert_eq!(
        debug_judge_err::<true, false, i32, i32>(&ok),
        Err(Violation::ExpectedErr { found: found("21") })
    );
    assert_eq!(debug_judge_ok_and::<true, false, i32, i32>(&ok, |x| x == &21), Ok(()));
    assert_eq!(
        debug_judge_ok_and::<true, false, i32, i32>(&ok, |_| false),
        Err(Violation::UnsatisfiedOk { found: found("21") })
    );
    assert_eq!(
        debug_judge_ok_and::<true, false, i32, i32>(&err, |_| true),
        Err(Violation::ExpectedOk { found: found("41") })
    );
    assert_eq!(debug_judge_err_and::<true, false, i32, i32>(&err, |x| x > &40), Ok(()));
    assert_eq!(
        debug_judge_err_and::<true, false, i32, i32>(&err, |x| x < &21),
        Err(Violation::UnsatisfiedErr { found: found("41") })
    );
    assert_eq!(
        debug_judge_err_and::<true, false, i32, i32>(&ok, |_| true),
        Err(Violation::ExpectedErr { found: found("21") })
    );
}

#[test]
fn an_enforcing_build_calls_the_condition_only_on_the_asserted_variant() {
    let calls = Cell::new(0);
    let ok: Result<i32, i32> = Ok(21);
    let verdict = debug_judge_err_and::<true, false, i32, i32>(&ok, |_| {
        calls.set(calls.get() + 1);
        true
    });
    assert_eq!(verdict, Err(Violation::ExpectedErr { found: found("21") }));
    assert_eq!(calls.get(), 0);

    let verdict = debug_judge_ok_and::<true, false, i32, i32>(&ok, |_| {
        calls.set(calls.get() + 1);
        true
    });
    assert_eq!(verdict, Ok(()));
    assert_eq!(calls.get(), 1);
}

#[test]
fn a_build_without_debug_assertions_lets_every_value_pass() {
    let none: Option<i32> = None;
    let ok: Result<i32, i32> = Ok(21);
    let err: Result<i32, i32> = Err(21);
    assert_eq!(debug_judge_some::<false, false, i32>(&none), Ok(()));
    assert_eq!(debug_judge_none::<false, false, i32>(&Some(1)), Ok(()));
    assert_eq!(debug_judge_some_and::<false, false, i32>(&Some(19), |x| x >= &20), Ok(()));
    assert_eq!(debug_judge_some_and::<false, false, i32>(&none, |x| x >= &20), Ok(()));
    assert_eq!(debug_judge_ok::<false, false, i32, i32>(&err), Ok(()));
    assert_eq!(debug_judge_err::<false, false, i32, i32>(&ok), Ok(()));
    assert_eq!(debug_judge_ok_and::<false, false, i32, i32>(&ok, |_| false), Ok(()));
    assert_eq!(debug_judge_ok_and::<false, false, i32, i32>(&err, |_| false), Ok(()));
    assert_eq!(debug_judge_err_and::<false, false, i32, i32>(&err, |x| x != &21), Ok(()));
    assert_eq!(debug_judge_err_and::<false, false, i32, i32>(&ok, |_| false), Ok(()));
}

#[test]
fn a_build_with_passthrough_lets_every_value_pass() {
    let none: Option<i32> = None;
    let ok: Result<i32, i32> = Ok(21);
    let err: Result<i32, i32> = Err(21);
    assert_eq!(debug_judge_some::<true, true, i32>(&none), Ok(()));
    assert_eq!(debug_judge_none::<true, true, i32>(&Some(1)), Ok(()));
    assert_eq!(debug_judge_some_and::<true, true, i32>(&Some(19), |x| x >= &20), Ok(()));
    assert_eq!(debug_judge_ok::<true, true, i32, i32>(&err), Ok(()));
    assert_eq!(debug_judge_err::<true, true, i32, i32>(&ok), Ok(()));
    assert_eq!(debug_judge_ok_and::<true, true, i32, i32>(&ok, |_| false), Ok(()));
    assert_eq!(debug_judge_err_and::<true, true, i32, i32>(&err, |_| false), Ok(()));
    assert_eq!(debug_judge_some::<false, true, i32>(&none), Ok(()));
    assert_eq!(debug_judge_err_and::<false, true, i32, i32>(&ok, |_| false), Ok(()));
}

#[test]
fn a_build_that_does_not_enforce_never_calls_the_condition() {
    let calls = Cell::new(0);
    let err: Result<i32, i32> = Err(21);
    let verdict = debug_judge_err_and::<false, false, i32, i32>(&err, |_| {
        calls.set(calls.get() + 1);
        false
    });
    assert_eq!(verdict, Ok(()));
    let verdict = debug_judge_err_and::<true, true, i32, i32>(&err, |_| {
        calls.set(calls.get() + 1);
        false
    });
    assert_eq!(verdict, Ok(()));
    let verdict = debug_judge_some_and::<false, true, i32>(&Some(19), |_| {
        calls.set(calls.get() + 1);
        false
    });
    assert_eq!(verdict, Ok(()));
    let ok: Result<i32, i32> = Ok(19);
    let verdict = debug_judge_ok_and::<false, false, i32, i32>(&ok, |_| {
        calls.set(calls.get() + 1);
        false
    });
    assert_eq!(verdict, Ok(()));
    assert_eq!(calls.get(), 0);
}
