use wiremock_ui::text::decimal;

#[test]
fn decimal_of_zero() {
    assert_eq!(decimal(0), "0");
}

#[test]
fn decimal_of_single_digit() {
    assert_eq!(decimal(9), "9");
}

#[test]
fn decimal_of_ten() {
    assert_eq!(decimal(10), "10");
}

#[test]
fn decimal_of_server_port() {
    assert_eq!(decimal(7070), "7070");
}

#[test]
fn decimal_of_negative() {
    assert_eq!(decimal(-42), "-42");
}

#[test]
fn decimal_of_extremes() {
    assert_eq!(decimal(i32::MAX), "2147483647");
    assert_eq!(decimal(i32::MIN), "-2147483648");
}

#[test]
fn decimal_matches_format() {
    for n in [-1000, -1, 1, 99, 100, 65535, 123456789] {
        assert_eq!(decimal(n), format!("{}", n));
        assert_eq!(decimal(n).parse::<i32>().unwrap(), n);
    }
}
