use pipeline_trigger::text::decimal_string;

#[test]
fn decimal_of_zero_is_a_single_digit() {
    assert_eq!(decimal_string(0), "0");
}

#[test]
fn decimal_of_single_digits() {
    assert_eq!(decimal_string(1), "1");
    assert_eq!(decimal_string(7), "7");
    assert_eq!(decimal_string(9), "9");
}

#[test]
fn decimal_of_largest_number() {
    assert_eq!(decimal_string(u64::MAX), "18446744073709551615");
}

#[test]
fn decimal_keeps_inner_and_trailing_zeros() {
    assert_eq!(decimal_string(10), "10");
    assert_eq!(decimal_string(1005), "1005");
    assert_eq!(decimal_string(9_000_000), "9000000");
}

#[test]
fn decimal_agrees_with_the_standard_formatting() {
    let samples: Vec<u64> = vec![0, 5, 10, 11, 99, 100, 101, 12345, 4294967296, u64::MAX - 1];
    for n in samples {
        assert_eq!(decimal_string(n), format!("{}", n));
    }
}
