use cpuid::layout::{push_bool, push_decimal};

fn decimal(value: u32) -> String {
    let mut out = String::new();
    push_decimal(&mut out, value);
    out
}

#[test]
fn numerals_have_no_leading_zeros() {
    assert_eq!(decimal(0), "0");
    assert_eq!(decimal(7), "7");
    assert_eq!(decimal(9), "9");
    assert_eq!(decimal(10), "10");
    assert_eq!(decimal(36), "36");
    assert_eq!(decimal(100), "100");
    assert_eq!(decimal(255), "255");
    assert_eq!(decimal(1_000_000), "1000000");
    assert_eq!(decimal(1_234_567_890), "1234567890");
    assert_eq!(decimal(u32::MAX), "4294967295");
}

#[test]
fn numerals_agree_with_the_standard_formatting() {
    let mut value: u32 = 1;
    for _ in 0..40 {
        assert_eq!(decimal(value), format!("{}", value));
        value = value.wrapping_mul(2_654_435_761).wrapping_add(12_345);
    }
}

#[test]
fn text_is_appended_to_what_is_there() {
    let mut out = String::from("count: ");
    push_decimal(&mut out, 42);
    out.push(' ');
    push_bool(&mut out, true);
    out.push(' ');
    push_bool(&mut out, false);
    assert_eq!(out, "count: 42 true false");
}
