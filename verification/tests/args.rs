use timerrs::args::{count_digits, parse_color, parse_duration, MAX_DURATION_DIGITS};
use timerrs::color::Color;
use timerrs::duration::Duration;

#[test]
fn parse_color_knows_every_name() {
    assert_eq!(parse_color("black"), Ok(Color::Black));
    assert_eq!(parse_color("dark_grey"), Ok(Color::DarkGrey));
    assert_eq!(parse_color("darkgrey"), Ok(Color::DarkGrey));
    assert_eq!(parse_color("red"), Ok(Color::Red));
    assert_eq!(parse_color("dark_red"), Ok(Color::DarkRed));
    assert_eq!(parse_color("darkred"), Ok(Color::DarkRed));
    assert_eq!(parse_color("green"), Ok(Color::Green));
    assert_eq!(parse_color("dark_green"), Ok(Color::DarkGreen));
    assert_eq!(parse_color("darkgreen"), Ok(Color::DarkGreen));
    assert_eq!(parse_color("yellow"), Ok(Color::Yellow));
    assert_eq!(parse_color("dark_yellow"), Ok(Color::DarkYellow));
    assert_eq!(parse_color("darkyellow"), Ok(Color::DarkYellow));
    assert_eq!(parse_color("blue"), Ok(Color::Blue));
    assert_eq!(parse_color("dark_blue"), Ok(Color::DarkBlue));
    assert_eq!(parse_color("darkblue"), Ok(Color::DarkBlue));
    assert_eq!(parse_color("magenta"), Ok(Color::Magenta));
    assert_eq!(parse_color("dark_magenta"), Ok(Color::DarkMagenta));
    assert_eq!(parse_color("darkmagenta"), Ok(Color::DarkMagenta));
    assert_eq!(parse_color("cyan"), Ok(Color::Cyan));
    assert_eq!(parse_color("dark_cyan"), Ok(Color::DarkCyan));
    assert_eq!(parse_color("darkcyan"), Ok(Color::DarkCyan));
    assert_eq!(parse_color("white"), Ok(Color::White));
    assert_eq!(parse_color("grey"), Ok(Color::Grey));
}

#[test]
fn parse_color_takes_any_case() {
    assert_eq!(parse_color("RED"), Ok(Color::Red));
    assert_eq!(parse_color("Dark_Grey"), Ok(Color::DarkGrey));
    assert_eq!(parse_color("DarkCyan"), Ok(Color::DarkCyan));
    assert_eq!(parse_color("wHiTe"), Ok(Color::White));
    assert_eq!(parse_color("blac\u{212a}"), Ok(Color::Black));
}

#[test]
fn parse_color_refuses_other_words() {
    assert_eq!(parse_color("purple"), Err("Invalid color: purple".to_string()));
    assert_eq!(parse_color("Purple"), Err("Invalid color: Purple".to_string()));
    assert_eq!(parse_color(""), Err("Invalid color: ".to_string()));
    assert_eq!(parse_color(" red"), Err("Invalid color:  red".to_string()));
    assert_eq!(parse_color("dark grey"), Err("Invalid color: dark grey".to_string()));
    assert_eq!(parse_color("gray"), Err("Invalid color: gray".to_string()));
    assert_eq!(parse_color("dark-red"), Err("Invalid color: dark-red".to_string()));
}

#[test]
fn color_from_name_is_exact() {
    assert_eq!(Color::from_name("red"), Some(Color::Red));
    assert_eq!(Color::from_name("RED"), None);
    assert_eq!(Color::from_name("Red"), None);
    assert_eq!(Color::from_name("dark_magenta"), Some(Color::DarkMagenta));
    assert_eq!(Color::from_name("darkmagenta"), Some(Color::DarkMagenta));
    assert_eq!(Color::from_name("dark_white"), None);
    assert_eq!(Color::from_name(""), None);
}

#[test]
fn parse_duration_reads_spans() {
    assert_eq!(parse_duration("5m"), Ok(Duration::from_secs(300)));
    assert_eq!(parse_duration("30s"), Ok(Duration::from_secs(30)));
    assert_eq!(parse_duration("1h"), Ok(Duration::from_secs(3600)));
    assert_eq!(parse_duration("2h 37min"), Ok(Duration::from_secs(9420)));
    assert_eq!(parse_duration("1hour 12min 5s"), Ok(Duration::from_secs(4325)));
    assert_eq!(parse_duration("32ms"), Ok(Duration::from_millis(32)));
    assert_eq!(parse_duration("1s 500ms"), Ok(Duration::new(1, 500_000_000)));
    assert_eq!(parse_duration("17ns"), Ok(Duration::new(0, 17)));
    assert_eq!(parse_duration("0"), Ok(Duration::zero()));
    assert_eq!(parse_duration("0s"), Ok(Duration::zero()));
    assert_eq!(parse_duration("1d"), Ok(Duration::from_secs(86_400)));
}

#[test]
fn parse_duration_is_not_the_text_itself() {
    let parsed = parse_duration("90s").unwrap();
    assert_eq!(parsed.as_secs(), 90);
    assert_eq!(parsed.subsec_nanos(), 0);
    assert_ne!(parse_duration("90s"), parse_duration("90m"));
}

#[test]
fn parse_duration_reports_what_is_wrong() {
    assert!(parse_duration("").is_err());
    assert!(parse_duration("abc").is_err());
    assert!(parse_duration("5").is_err());
    assert!(parse_duration("5 parsecs").is_err());
    assert!(parse_duration("-5s").is_err());
    assert!(parse_duration("5s!").is_err());
    let message = parse_duration("5 parsecs").unwrap_err();
    assert!(message.contains("parsecs"), "{}", message);
    let empty = parse_duration("").unwrap_err();
    assert!(!empty.is_empty());
}

#[test]
fn parse_duration_takes_eleven_digits_and_no_more() {
    assert_eq!(MAX_DURATION_DIGITS, 11);
    assert_eq!(parse_duration("12345678901s"), Ok(Duration::from_secs(12_345_678_901)));
    assert_eq!(parse_duration("99999999999y"), Ok(Duration::from_secs(99_999_999_999 * 31_557_600)));
    assert_eq!(
        parse_duration("123456789012s"),
        Err("a duration is written with eleven digits at most".to_string())
    );
    assert_eq!(
        parse_duration("18446744073709551615s 1000000000ns"),
        Err("a duration is written with eleven digits at most".to_string())
    );
    assert_eq!(
        parse_duration("1h 1m 1s 1ms 1us 1ns 1d 1w 1M 1y 1h 1m"),
        Err("a duration is written with eleven digits at most".to_string())
    );
    assert_eq!(
        parse_duration("1h 1m 1s 1ms 1us 1ns 1d 1w 1M 1y 1h"),
        Ok(Duration::new(3600 + 60 + 1 + 86_400 + 604_800 + 2_630_016 + 31_557_600 + 3600, 1_001_001))
    );
}

#[test]
fn count_digits_counts_ascii_digits() {
    assert_eq!(count_digits(""), 0);
    assert_eq!(count_digits("abc"), 0);
    assert_eq!(count_digits("1h 12min 5s"), 4);
    assert_eq!(count_digits("0123456789"), 10);
    assert_eq!(count_digits("/:"), 0);
    assert_eq!(count_digits("5\u{b5}s"), 1);
    assert_eq!(count_digits("\u{0663}\u{ff15}"), 0);
}
