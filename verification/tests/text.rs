use graph_gen::text::{append_signed, append_unsigned, Lines};

fn unsigned(n: u128) -> String {
    let mut out = String::new();
    append_unsigned(&mut out, n);
    out
}

fn signed(i: isize) -> String {
    let mut out = String::new();
    append_signed(&mut out, i);
    out
}

#[test]
fn unsigned_numbers_in_decimal() {
    assert_eq!(unsigned(0), "0");
    assert_eq!(unsigned(7), "7");
    assert_eq!(unsigned(9), "9");
    assert_eq!(unsigned(10), "10");
    assert_eq!(unsigned(1234567890), "1234567890");
    assert_eq!(unsigned(100_000), "100000");
    assert_eq!(unsigned(u128::MAX), "340282366920938463463374607431768211455");
}

#[test]
fn signed_numbers_in_decimal() {
    assert_eq!(signed(0), "0");
    assert_eq!(signed(42), "42");
    assert_eq!(signed(-1), "-1");
    assert_eq!(signed(-10), "-10");
    assert_eq!(signed(-905), "-905");
    assert_eq!(signed(isize::MAX), isize::MAX.to_string());
    assert_eq!(signed(isize::MIN), isize::MIN.to_string());
}

#[test]
fn numbers_are_appended() {
    let mut out = String::from("n = ");
    append_unsigned(&mut out, 31);
    out.push_str(", w = ");
    append_signed(&mut out, -4);
    assert_eq!(out, "n = 31, w = -4");
}

#[test]
fn lines_are_joined_by_line_feeds() {
    let mut out = Lines::new();
    out.push("first");
    out.push("second");
    out.push("");
    out.push("fourth");
    assert_eq!(out.finish(), "first\nsecond\n\nfourth");
}

#[test]
fn one_line_has_no_line_feed() {
    let mut out = Lines::new();
    out.push("only");
    assert_eq!(out.finish(), "only");
}

#[test]
fn no_line_is_the_empty_text() {
    assert_eq!(Lines::new().finish(), "");
}

#[test]
fn empty_first_line_is_kept() {
    let mut out = Lines::new();
    out.push("");
    out.push("second");
    assert_eq!(out.finish(), "\nsecond");
}
