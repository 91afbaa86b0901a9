use video_admin::numbers::{integer_text, parse_usize, u64_text, usize_text};

#[test]
fn decimal_text() {
    assert_eq!(u64_text(0), "0");
    assert_eq!(u64_text(7), "7");
    assert_eq!(u64_text(10), "10");
    assert_eq!(u64_text(1234567890), "1234567890");
    assert_eq!(u64_text(u64::MAX), u64::MAX.to_string());
}

#[test]
fn parse_accepts_what_std_accepts() {
    for s in ["0", "2", "+5", "007", "18446744073709551615", "", "+", "-1", "1a", " 1", "18446744073709551616", "٣"] {
        assert_eq!(parse_usize(s), s.parse::<usize>().ok(), "{}", s);
    }
}

#[test]
fn parse_values() {
    assert_eq!(parse_usize("42"), Some(42));
    assert_eq!(parse_usize("+42"), Some(42));
    assert_eq!(parse_usize("-0"), None);
    assert_eq!(parse_usize(""), None);
}

#[test]
fn integer_texts() {
    assert!(integer_text("12"));
    assert!(integer_text("-12"));
    assert!(integer_text("+0"));
    assert!(!integer_text("-"));
    assert!(!integer_text(""));
    assert!(!integer_text("1.5"));
    assert!(!integer_text("--1"));
    assert_eq!(usize_text(305), "305");
}
