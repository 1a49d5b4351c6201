use lit_sink_nexus::text::{decimal, push_decimal};

#[test]
fn decimal_of_zero() {
    assert_eq!(decimal(0), "0");
}

#[test]
fn decimal_of_single_digits() {
    for v in 0..10 {
        assert_eq!(decimal(v), format!("{}", v));
    }
}

#[test]
fn decimal_of_negative_numbers() {
    assert_eq!(decimal(-1), "-1");
    assert_eq!(decimal(-10), "-10");
    assert_eq!(decimal(-2147483647), "-2147483647");
}

#[test]
fn decimal_of_the_extremes() {
    assert_eq!(decimal(i32::MAX), "2147483647");
    assert_eq!(decimal(i32::MIN), "-2147483648");
}

#[test]
fn decimal_agrees_with_the_standard_formatter() {
    let mut v: i32 = 1;
    for step in 0..2000 {
        assert_eq!(decimal(v), v.to_string());
        assert_eq!(decimal(v.wrapping_neg()), v.wrapping_neg().to_string());
        v = v.wrapping_mul(31).wrapping_add(step);
    }
    for v in [9, 10, 11, 99, 100, 101, 1000, 1_000_000_000, 1_999_999_999, 100_000_007] {
        assert_eq!(decimal(v), v.to_string());
        assert_eq!(decimal(-v), (-v).to_string());
    }
}

#[test]
fn push_decimal_appends() {
    let mut s = String::from("code ");
    push_decimal(&mut s, 42);
    assert_eq!(s, "code 42");
    push_decimal(&mut s, -7);
    assert_eq!(s, "code 42-7");
}

#[test]
fn decimal_reads_back() {
    for v in [0, 1, -1, 7, 10, -10, 99, 100, 12345, -12345, i32::MAX, i32::MIN] {
        assert_eq!(decimal(v).parse::<i32>().unwrap(), v);
    }
}

#[test]
fn different_numbers_have_different_texts() {
    let values = [0, 1, -1, 10, -10, 11, 101, 110, -101, 1000];
    for a in values {
        for b in values {
            assert_eq!(decimal(a) == decimal(b), a == b);
        }
    }
}
