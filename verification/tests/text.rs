use ring0::text::{decimal_string, join_strings};

#[test]
fn decimal_of_small_and_large_numbers() {
    assert_eq!(decimal_string(0), "0");
    assert_eq!(decimal_string(7), "7");
    assert_eq!(decimal_string(10), "10");
    assert_eq!(decimal_string(1234), "1234");
    assert_eq!(decimal_string(u64::MAX), u64::MAX.to_string());
}

#[test]
fn join_puts_the_separator_between_items() {
    let list = vec!["a".to_string(), "bc".to_string(), "".to_string(), "d".to_string()];
    assert_eq!(join_strings(&list, ", "), "a, bc, , d");
    assert_eq!(join_strings(&vec![], "-"), "");
    assert_eq!(join_strings(&vec!["x".to_string()], "-"), "x");
}
