use recipe_service::text::i32_text;

#[test]
fn zero_renders_as_single_digit() {
    assert_eq!(i32_text(0), "0");
}

#[test]
fn single_digit_renders() {
    assert_eq!(i32_text(7), "7");
}

#[test]
fn multi_digit_renders_most_significant_first() {
    assert_eq!(i32_text(12), "12");
    assert_eq!(i32_text(345), "345");
    assert_eq!(i32_text(1000), "1000");
}

#[test]
fn negative_values_carry_a_minus_sign() {
    assert_eq!(i32_text(-5), "-5");
    assert_eq!(i32_text(-123), "-123");
}

#[test]
fn extreme_values_render() {
    assert_eq!(i32_text(i32::MAX), "2147483647");
    assert_eq!(i32_text(i32::MIN), "-2147483648");
}
