use openzl::decimal::{push_decimal, push_signed_decimal};

fn unsigned(n: u128) -> String {
    let mut out = String::new();
    push_decimal(&mut out, n);
    out
}

fn signed(n: i32) -> String {
    let mut out = String::new();
    push_signed_decimal(&mut out, n);
    out
}

#[test]
fn numerals_of_small_numbers() {
    assert_eq!(unsigned(0), "0");
    assert_eq!(unsigned(7), "7");
    assert_eq!(unsigned(9), "9");
    assert_eq!(unsigned(10), "10");
    assert_eq!(unsigned(21), "21");
    assert_eq!(unsigned(100), "100");
    assert_eq!(unsigned(4700), "4700");
    assert_eq!(unsigned(1048576), "1048576");
}

#[test]
fn numerals_of_the_largest_numbers() {
    assert_eq!(unsigned(u64::MAX as u128), "18446744073709551615");
    assert_eq!(unsigned(u128::MAX), "340282366920938463463374607431768211455");
}

#[test]
fn numerals_agree_with_the_standard_ones() {
    for n in (0..100000u128).step_by(37) {
        assert_eq!(unsigned(n), n.to_string());
    }
    for n in (-50000..50000i32).step_by(41) {
        assert_eq!(signed(n), n.to_string());
    }
}

#[test]
fn numerals_of_signed_numbers() {
    assert_eq!(signed(0), "0");
    assert_eq!(signed(-1), "-1");
    assert_eq!(signed(42), "42");
    assert_eq!(signed(i32::MIN), "-2147483648");
    assert_eq!(signed(i32::MAX), "2147483647");
}

#[test]
fn numerals_are_appended_to_what_is_there() {
    let mut out = String::from("got ");
    push_decimal(&mut out, 799);
    out.push_str(" of ");
    push_signed_decimal(&mut out, -800);
    assert_eq!(out, "got 799 of -800");
}
