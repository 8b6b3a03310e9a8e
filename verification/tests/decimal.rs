use tangle_kit::decimal::{push_decimal, to_decimal};

#[test]
fn decimal_of_small_numbers() {
    assert_eq!(to_decimal(0), "0");
    assert_eq!(to_decimal(5), "5");
    assert_eq!(to_decimal(9), "9");
}

#[test]
fn decimal_has_no_leading_zeros() {
    assert_eq!(to_decimal(10), "10");
    assert_eq!(to_decimal(100), "100");
    assert_eq!(to_decimal(1_000_000), "1000000");
    assert_eq!(to_decimal(907), "907");
}

#[test]
fn decimal_of_the_largest_number() {
    assert_eq!(to_decimal(u32::MAX), "4294967295");
}

#[test]
fn decimal_agrees_with_std() {
    for n in [0u32, 1, 9, 10, 11, 19, 20, 99, 100, 999, 1_000, 65_535, 4_294_967_294] {
        assert_eq!(to_decimal(n), n.to_string());
    }
}

#[test]
fn decimal_is_appended() {
    let mut text = String::from("round ");
    push_decimal(&mut text, 42);
    assert_eq!(text, "round 42");
    push_decimal(&mut text, 0);
    assert_eq!(text, "round 420");
}
