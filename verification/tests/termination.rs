use initrt::termination::{Termination, TerminationOutcome};

#[test]
fn success_resolves_to_zero() {
    assert_eq!(TerminationOutcome::Success.resolve(), 0);
}

#[test]
fn code_resolves_to_itself() {
    assert_eq!(TerminationOutcome::Code(42).resolve(), 42);
    assert_eq!(TerminationOutcome::Code(-3).resolve(), -3);
}

#[test]
fn os_error_resolves_to_its_number() {
    assert_eq!(TerminationOutcome::OsError(2).resolve(), 2);
    assert_eq!(TerminationOutcome::OsError(13).resolve(), 13);
}

#[test]
fn nested_nested_success_resolves_to_zero() {
    let o = TerminationOutcome::Nested(Box::new(TerminationOutcome::Nested(Box::new(
        TerminationOutcome::Success,
    ))));
    assert_eq!(o.resolve(), 0);
}

#[test]
fn nested_os_error_resolves_to_its_number() {
    let o = TerminationOutcome::Nested(Box::new(TerminationOutcome::OsError(95)));
    assert_eq!(o.resolve(), 95);
}

#[test]
fn deeply_nested_code() {
    let mut o = TerminationOutcome::Code(7);
    for _ in 0..10 {
        o = TerminationOutcome::Nested(Box::new(o));
    }
    assert_eq!(o.resolve(), 7);
}

#[test]
fn termination_of_plain_values() {
    assert_eq!(5i32.exit(), 5);
    assert_eq!(().exit(), 0);
}

#[test]
fn termination_of_results() {
    let ok: Result<(), i32> = Ok(());
    assert_eq!(ok.exit(), 0);
    let err: Result<(), i32> = Err(19);
    assert_eq!(err.exit(), 19);
    let nested: Result<i32, Result<(), i32>> = Err(Err(6));
    assert_eq!(nested.exit(), 6);
    let outcome: Result<(), TerminationOutcome> =
        Err(TerminationOutcome::Nested(Box::new(TerminationOutcome::OsError(22))));
    assert_eq!(outcome.exit(), 22);
}
