use nds::process::{panic_report, push_decimal, Status, Termination};

#[test]
fn unit_terminates_successfully() {
    assert_eq!(().status(), 0);
}

#[test]
fn result_status_follows_the_outcome() {
    let ok: Result<(), i32> = Ok(());
    let err: Result<(), i32> = Err(7);
    assert_eq!(ok.status(), 0);
    assert_eq!(err.status(), 1);
}

#[test]
fn nested_results_report_the_innermost_success() {
    let nested: Result<Result<(), u8>, u8> = Ok(Ok(()));
    assert_eq!(nested.status(), 0);
    let inner_failure: Result<Result<(), u8>, u8> = Ok(Err(3));
    assert_eq!(inner_failure.status(), 1);
}

#[test]
fn status_codes() {
    assert_eq!(Status::Success.code(), 0);
    assert_eq!(Status::Failure.code(), 1);
    assert_eq!(i32::from(Status::Success), 0);
    assert_eq!(i32::from(Status::Failure), 1);
}

#[test]
fn decimal_digits_of_edge_values() {
    let mut s = String::new();
    push_decimal(&mut s, 0);
    assert_eq!(s, "0");
    let mut s = String::new();
    push_decimal(&mut s, 9);
    assert_eq!(s, "9");
    let mut s = String::new();
    push_decimal(&mut s, 10);
    assert_eq!(s, "10");
    let mut s = String::new();
    push_decimal(&mut s, 4294967295);
    assert_eq!(s, "4294967295");
    let mut s = String::from("line ");
    push_decimal(&mut s, 302);
    assert_eq!(s, "line 302");
}

#[test]
fn panic_report_with_location() {
    let r = panic_report(Some(("src/main.rs", 42)), "index out of bounds");
    assert_eq!(
        r,
        "\x1b[0;0H\x1b[31mPanic!\x1b[39;0m\n\x1b[34msrc/main.rs:42\x1b[39;0m\nindex out of bounds\n"
    );
}

#[test]
fn panic_report_without_location() {
    let r = panic_report(None, "explicit panic");
    assert_eq!(r, "\x1b[0;0H\x1b[31mPanic!\x1b[39;0m\nexplicit panic\n");
}
