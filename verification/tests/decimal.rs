use rustexp::decimal::push_decimal;

fn decimal_of(n: usize) -> String {
    let mut buffer = String::new();
    push_decimal(&mut buffer, n);
    buffer
}

#[test]
fn push_decimal_appends_digits() {
    let mut buffer = String::from("n=");
    push_decimal(&mut buffer, 0);
    push_decimal(&mut buffer, 7);
    push_decimal(&mut buffer, 10);
    push_decimal(&mut buffer, 4096);
    assert_eq!(buffer, "n=07104096");
}

#[test]
fn push_decimal_writes_each_digit() {
    assert_eq!(decimal_of(0), "0");
    assert_eq!(decimal_of(9), "9");
    assert_eq!(decimal_of(10), "10");
    assert_eq!(decimal_of(99), "99");
    assert_eq!(decimal_of(100), "100");
    assert_eq!(decimal_of(1234567890), "1234567890");
}

#[test]
fn push_decimal_agrees_with_the_standard_rendering() {
    for n in 0..2000usize {
        assert_eq!(decimal_of(n), format!("{}", n));
    }
    assert_eq!(decimal_of(usize::MAX), format!("{}", usize::MAX));
    assert_eq!(decimal_of(usize::MAX / 10), format!("{}", usize::MAX / 10));
}
