use wasm_guest::operation;
use wasm_guest::RecordingHost;

#[test]
fn fresh_host_has_empty_log() {
    let host = RecordingHost::new();
    assert!(host.values().is_empty());
}

#[test]
fn adds_small_values_and_logs_in_order() {
    let mut host = RecordingHost::new();
    let r = operation(&mut host, 2, 3);
    assert_eq!(r, 5);
    assert_eq!(host.values(), &vec![2, 3]);
}

#[test]
fn negative_and_positive_cancel() {
    let mut host = RecordingHost::new();
    let r = operation(&mut host, -1, 1);
    assert_eq!(r, 0);
    assert_eq!(host.values(), &vec![-1, 1]);
}

#[test]
fn overflow_wraps_to_minimum() {
    let mut host = RecordingHost::new();
    let r = operation(&mut host, 2147483647, 1);
    assert_eq!(r, -2147483648);
    assert_eq!(host.values(), &vec![2147483647, 1]);
}

#[test]
fn underflow_wraps_to_maximum() {
    let mut host = RecordingHost::new();
    let r = operation(&mut host, -2147483648, -1);
    assert_eq!(r, 2147483647);
    assert_eq!(host.values(), &vec![-2147483648, -1]);
}

#[test]
fn zeros_add_to_zero() {
    let mut host = RecordingHost::new();
    let r = operation(&mut host, 0, 0);
    assert_eq!(r, 0);
    assert_eq!(host.values(), &vec![0, 0]);
}

#[test]
fn each_invocation_logs_exactly_two_values() {
    let mut host = RecordingHost::new();
    operation(&mut host, 7, -9);
    assert_eq!(host.values().len(), 2);
    operation(&mut host, 4, 5);
    assert_eq!(host.values().len(), 4);
    assert_eq!(host.values(), &vec![7, -9, 4, 5]);
}

#[test]
fn repeated_invocations_are_identical() {
    let mut host = RecordingHost::new();
    let r1 = operation(&mut host, 11, 31);
    let r2 = operation(&mut host, 11, 31);
    let r3 = operation(&mut host, 11, 31);
    assert_eq!(r1, 42);
    assert_eq!(r2, r1);
    assert_eq!(r3, r1);
    let logged = host.values();
    assert_eq!(logged, &vec![11, 31, 11, 31, 11, 31]);
    assert_eq!(logged[0..2], logged[2..4]);
    assert_eq!(logged[2..4], logged[4..6]);
}
