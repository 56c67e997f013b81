use mini_cli::text::decimal_text;

#[test]
fn numbers_are_written_in_decimal() {
    assert_eq!(decimal_text(0), "0");
    assert_eq!(decimal_text(7), "7");
    assert_eq!(decimal_text(9), "9");
    assert_eq!(decimal_text(10), "10");
    assert_eq!(decimal_text(11), "11");
    assert_eq!(decimal_text(100), "100");
    assert_eq!(decimal_text(1234567890), "1234567890");
    assert_eq!(decimal_text(u64::MAX), "18446744073709551615");
}

#[test]
fn decimal_writing_agrees_with_the_standard_library() {
    let mut n: u64 = 0;
    while n < 3000 {
        assert_eq!(decimal_text(n), n.to_string());
        n += 1;
    }
    let mut n: u64 = 1;
    while n < u64::MAX / 3 {
        assert_eq!(decimal_text(n), n.to_string());
        assert_eq!(decimal_text(n - 1), (n - 1).to_string());
        n = n * 3 + 1;
    }
}
