use home_radio::text::{format_u16, parse_u16, str_eq};

#[test]
fn format_writes_plain_decimal() {
    assert_eq!(format_u16(0), "0");
    assert_eq!(format_u16(7), "7");
    assert_eq!(format_u16(10), "10");
    assert_eq!(format_u16(100), "100");
    assert_eq!(format_u16(256), "256");
    assert_eq!(format_u16(65535), "65535");
}

#[test]
fn format_agrees_with_std_for_every_value() {
    let mut v: u16 = 0;
    loop {
        assert_eq!(format_u16(v), v.to_string());
        if v == u16::MAX {
            break;
        }
        v += 1;
    }
}

#[test]
fn parse_reads_back_every_value() {
    let mut v: u16 = 0;
    loop {
        assert_eq!(parse_u16(&format_u16(v)), Some(v));
        if v == u16::MAX {
            break;
        }
        v += 1;
    }
}

#[test]
fn parse_accepts_plus_sign_and_leading_zeros() {
    assert_eq!(parse_u16("+5"), Some(5));
    assert_eq!(parse_u16("007"), Some(7));
    assert_eq!(parse_u16("+000"), Some(0));
    assert_eq!(parse_u16("0000000000000000065535"), Some(65535));
}

#[test]
fn parse_refuses_what_is_no_number() {
    assert_eq!(parse_u16(""), None);
    assert_eq!(parse_u16("+"), None);
    assert_eq!(parse_u16("-"), None);
    assert_eq!(parse_u16("-5"), None);
    assert_eq!(parse_u16("++5"), None);
    assert_eq!(parse_u16("5+"), None);
    assert_eq!(parse_u16(" 5"), None);
    assert_eq!(parse_u16("5 "), None);
    assert_eq!(parse_u16("5\n"), None);
    assert_eq!(parse_u16("1.5"), None);
    assert_eq!(parse_u16("0x10"), None);
    assert_eq!(parse_u16("loud"), None);
    assert_eq!(parse_u16("١٢"), None);
    assert_eq!(parse_u16("5é"), None);
    assert_eq!(parse_u16("é5"), None);
    assert_eq!(parse_u16("+é"), None);
}

#[test]
fn parse_refuses_what_does_not_fit() {
    assert_eq!(parse_u16("65535"), Some(65535));
    assert_eq!(parse_u16("65536"), None);
    assert_eq!(parse_u16("70000"), None);
    assert_eq!(parse_u16("99999999999999999999999999"), None);
    assert_eq!(parse_u16("4294967296"), None);
    assert_eq!(parse_u16("4294967306"), None);
}

#[test]
fn parse_agrees_with_std() {
    let samples = [
        "", "0", "1", "9", "10", "99", "100", "256", "65535", "65536", "65537", "100000", "+1",
        "+65535", "+65536", "-1", "-0", "+-1", "1+", "00", "0001", "1 ", " 1", "1\n", "\t1", "a",
        "1a", "a1", "12a4", "１２", "+", "-", "++", "655350", "0655350", "18446744073709551616",
    ];
    for text in samples {
        assert_eq!(parse_u16(text), text.parse::<u16>().ok(), "{:?}", text);
    }
}

#[test]
fn str_eq_compares_whole_texts() {
    assert!(str_eq("", ""));
    assert!(str_eq("stopped", "stopped"));
    assert!(!str_eq("stopped", "stoppe"));
    assert!(!str_eq("stopped", "stopped "));
    assert!(!str_eq("stopped", "Stopped"));
    assert!(!str_eq("playing", "stopped"));
    assert!(str_eq("Kanäle", "Kanäle"));
    assert!(!str_eq("Kanäle", "Kanale"));
}
