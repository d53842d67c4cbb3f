use stackerror::fmt_loc;

#[test]
fn test_fmt_lo() {
    let msg = fmt_loc("src/macros.rs", 20, &format!("Error {} occurred", 42));
    assert_eq!(msg, format!("src/macros.rs:20 Error 42 occurred"));
}

#[test]
fn test_stack_msg() {
    let msg = fmt_loc("src/message.rs", 18, &format!("Error {} occurred", 42));
    assert_eq!(msg, format!("src/message.rs:18 Error 42 occurred"));
}

#[test]
fn location_with_single_digit_and_large_line() {
    assert_eq!(fmt_loc("a.rs", 0, "m"), "a.rs:0 m");
    assert_eq!(fmt_loc("b.rs", 4294967295, ""), "b.rs:4294967295 ");
    assert_eq!(fmt_loc("c.rs", 1005, "x y"), "c.rs:1005 x y");
}
