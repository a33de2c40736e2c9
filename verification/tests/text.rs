use manager_bot::text::{
    chars_of, find_char, push_decimal, push_padded_decimal, same_text, second_dash_field,
    starts_with,
};

fn decimal(n: u128) -> String {
    let mut s = String::new();
    push_decimal(&mut s, n);
    s
}

fn padded(n: u128, width: usize) -> String {
    let mut s = String::new();
    push_padded_decimal(&mut s, n, width);
    s
}

#[test]
fn decimal_rendering() {
    assert_eq!(decimal(0), "0");
    assert_eq!(decimal(7), "7");
    assert_eq!(decimal(10), "10");
    assert_eq!(decimal(1234567890), "1234567890");
    assert_eq!(decimal(u128::MAX), u128::MAX.to_string());
}

#[test]
fn decimal_appends() {
    let mut s = String::from("n=");
    push_decimal(&mut s, 42);
    assert_eq!(s, "n=42");
}

#[test]
fn zero_padding() {
    assert_eq!(padded(1, 4), "0001");
    assert_eq!(padded(0, 4), "0000");
    assert_eq!(padded(123, 4), "0123");
    assert_eq!(padded(9999, 4), "9999");
    assert_eq!(padded(12345, 4), "12345");
    assert_eq!(padded(5, 0), "5");
    for n in [0u128, 1, 12, 999, 1000, 65536] {
        assert_eq!(padded(n, 4), format!("{:04}", n));
    }
}

#[test]
fn characters_and_comparison() {
    assert_eq!(chars_of("añb"), vec!['a', 'ñ', 'b']);
    assert!(same_text("ticket", "ticket"));
    assert!(!same_text("ticket", "ticke"));
    assert!(!same_text("ticket", "tickex"));
    assert!(same_text("", ""));
}

#[test]
fn prefix_test() {
    assert!(starts_with("closed-0001", "closed-"));
    assert!(!starts_with("ticket-0001", "closed-"));
    assert!(!starts_with("closed", "closed-"));
    assert!(starts_with("anything", ""));
}

#[test]
fn first_dash() {
    assert_eq!(find_char(&chars_of("ab-c-d"), '-'), 2);
    assert_eq!(find_char(&chars_of("abc"), '-'), 3);
}

fn field(s: &str) -> Option<String> {
    second_dash_field(s).map(|f| f.into_iter().collect())
}

#[test]
fn second_field_like_split() {
    for s in ["ticket-0001", "closed-0042", "a-b-c", "a--b", "-x", "x-", "none", "", "α-β"] {
        assert_eq!(field(s), s.split('-').nth(1).map(|f| f.to_string()), "{s}");
    }
}
