use timerrs::text::{push_decimal, push_padded, push_repeated, same_text};

fn decimal(n: u64) -> String {
    let mut out = String::new();
    push_decimal(&mut out, n);
    out
}

fn padded(n: u64, width: usize, fill: &str) -> String {
    let mut out = String::new();
    push_padded(&mut out, n, width, fill);
    out
}

#[test]
fn push_decimal_writes_base_ten() {
    assert_eq!(decimal(0), "0");
    assert_eq!(decimal(7), "7");
    assert_eq!(decimal(10), "10");
    assert_eq!(decimal(909), "909");
    assert_eq!(decimal(1_234_567_890), "1234567890");
    assert_eq!(decimal(u64::MAX), "18446744073709551615");
}

#[test]
fn push_decimal_agrees_with_the_standard_library() {
    for n in (0..100_000u64).step_by(37) {
        assert_eq!(decimal(n), n.to_string());
    }
}

#[test]
fn push_decimal_appends() {
    let mut out = String::from("n=");
    push_decimal(&mut out, 42);
    push_decimal(&mut out, 0);
    assert_eq!(out, "n=420");
}

#[test]
fn push_repeated_repeats() {
    let mut out = String::from(">");
    push_repeated(&mut out, "ab", 3);
    assert_eq!(out, ">ababab");
    push_repeated(&mut out, "x", 0);
    assert_eq!(out, ">ababab");
    push_repeated(&mut out, "", 5);
    assert_eq!(out, ">ababab");
    push_repeated(&mut out, "\u{2588}", 2);
    assert_eq!(out, ">ababab\u{2588}\u{2588}");
}

#[test]
fn push_padded_fills_on_the_left() {
    assert_eq!(padded(5, 3, " "), "  5");
    assert_eq!(padded(50, 3, " "), " 50");
    assert_eq!(padded(500, 3, " "), "500");
    assert_eq!(padded(5000, 3, " "), "5000");
    assert_eq!(padded(5, 2, "0"), "05");
    assert_eq!(padded(0, 2, "0"), "00");
    assert_eq!(padded(123, 2, "0"), "123");
    assert_eq!(padded(7, 0, "0"), "7");
    assert_eq!(padded(7, 1, "0"), "7");
}

#[test]
fn same_text_compares_character_for_character() {
    assert!(same_text("pause", "pause"));
    assert!(same_text("", ""));
    assert!(!same_text("pause", "Pause"));
    assert!(!same_text("pause", "pause "));
    assert!(!same_text("pause", "paus"));
    assert!(!same_text("", " "));
}
