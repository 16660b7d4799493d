use evict::text::{decimal_string, push_decimal};

#[test]
fn decimal_of_chosen_numbers() {
    assert_eq!(decimal_string(0), "0");
    assert_eq!(decimal_string(7), "7");
    assert_eq!(decimal_string(10), "10");
    assert_eq!(decimal_string(109), "109");
    assert_eq!(decimal_string(8080), "8080");
    assert_eq!(decimal_string(65535), "65535");
    assert_eq!(decimal_string(4294967295), "4294967295");
    assert_eq!(decimal_string(u64::MAX), "18446744073709551615");
}

#[test]
fn decimal_agrees_with_the_standard_notation() {
    for n in 0u64..=100000 {
        assert_eq!(decimal_string(n), n.to_string());
    }
    let mut n: u64 = 1;
    while n < u64::MAX / 7 {
        assert_eq!(decimal_string(n), n.to_string());
        assert_eq!(decimal_string(n - 1), (n - 1).to_string());
        n = n * 7 + 3;
    }
}

#[test]
fn push_decimal_appends() {
    let mut text = String::from("pid ");
    push_decimal(&mut text, 1234);
    assert_eq!(text, "pid 1234");
    push_decimal(&mut text, 0);
    assert_eq!(text, "pid 12340");
}
