use code_executor::workspace::{decimal_text, workspace_name};

#[test]
fn decimal_digits() {
    assert_eq!(decimal_text(0), "0");
    assert_eq!(decimal_text(7), "7");
    assert_eq!(decimal_text(10), "10");
    assert_eq!(decimal_text(1234567890), "1234567890");
    assert_eq!(decimal_text(u64::MAX), "18446744073709551615");
}

#[test]
fn workspace_names() {
    assert_eq!(workspace_name("/tmp", 42, 0), "/tmp/code-executor-42-0");
    assert_eq!(workspace_name("/var/tmp", 7, 105), "/var/tmp/code-executor-7-105");
}

#[test]
fn workspace_names_differ_by_serial() {
    let a = workspace_name("/tmp", 42, 1);
    let b = workspace_name("/tmp", 42, 11);
    let c = workspace_name("/tmp", 42, 2);
    assert_ne!(a, b);
    assert_ne!(a, c);
    assert_ne!(b, c);
}
