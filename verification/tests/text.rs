use authvaultix::display::{format_date, shown_date, user_info_lines};
use authvaultix::hwid::{hwid_or_unknown, sid_from_powershell, sid_from_wmic, strip_sid};
use authvaultix::text::{decimal_string, format_timeleft, parse_i64, trim, white_space};
use authvaultix::{Subscription, UserInfo};

#[test]
fn timeleft_formats_days_hours_minutes() {
    assert_eq!(format_timeleft(0), "0d 0h 0m");
    assert_eq!(format_timeleft(90061), "1d 1h 1m");
    assert_eq!(format_timeleft(20757600), "240d 6h 0m");
    assert_eq!(format_timeleft(59), "0d 0h 0m");
    assert_eq!(format_timeleft(86399), "0d 23h 59m");
    assert_eq!(format_timeleft(u64::MAX), "213503982334601d 7h 0m");
}

#[test]
fn decimal_digits() {
    assert_eq!(decimal_string(0), "0");
    assert_eq!(decimal_string(7), "7");
    assert_eq!(decimal_string(1234567890), "1234567890");
    assert_eq!(decimal_string(u64::MAX), u64::MAX.to_string());
}

#[test]
fn parse_i64_like_std() {
    for s in ["0", "123", "-45", "+7", "-0", "9223372036854775807", "-9223372036854775808",
              "9223372036854775808", "-9223372036854775809", "", "-", "+", "12a", " 1", "1 ",
              "99999999999999999999999", "--1", "1.5", "١٢"] {
        assert_eq!(parse_i64(s), s.parse::<i64>().ok(), "input {:?}", s);
    }
}

#[test]
fn trim_like_std() {
    for s in ["  abc \r\n", "\u{3000}x\u{a0}", "", "   ", "a b", "\t\u{2028}z\u{85}", "\u{200b}q"] {
        assert_eq!(trim(s), s.trim(), "input {:?}", s);
    }
    assert!(white_space('\u{2009}'));
    assert!(!white_space('x'));
    assert!(!white_space('\u{200b}'));
}

#[test]
fn strip_sid_like_replace() {
    for s in ["SID=S-1-5", "SIDSID==", "xSID=ySID=z", "SID", "", "SSID=="] {
        assert_eq!(strip_sid(s), s.replace("SID=", ""), "input {:?}", s);
    }
}

#[test]
fn powershell_sid() {
    assert_eq!(sid_from_powershell("  S-1-5-21-100 \r\n"), Some("S-1-5-21-100".to_string()));
    assert_eq!(sid_from_powershell(" \r\n "), None);
}

#[test]
fn wmic_sid() {
    assert_eq!(sid_from_wmic("\r\n\r\nSID=S-1-5-21-1\r\n\r\n"), Some("S-1-5-21-1".to_string()));
    assert_eq!(sid_from_wmic("Name=x\n  SID=A\nSID=B\n"), Some("A".to_string()));
    assert_eq!(sid_from_wmic("no sid here\r\n"), None);
    assert_eq!(sid_from_wmic(""), None);
    assert_eq!(sid_from_wmic("xSID=1\n"), None);
}

#[test]
fn hwid_falls_back_to_unknown() {
    assert_eq!(hwid_or_unknown(None), "UNKNOWN_HWID");
    assert_eq!(hwid_or_unknown(Some("S-1".to_string())), "S-1");
}

#[test]
fn date_text_falls_back_to_input() {
    assert_eq!(format_date("not a number"), "not a number");
    assert_eq!(format_date(""), "");
    assert_eq!(format_date("9223372036854775807"), "9223372036854775807");
    let shown = format_date("1700000000");
    assert_ne!(shown, "1700000000");
    assert_eq!(shown.len(), "2023-11-14 10:13:20 PM".len());
}

#[test]
fn user_report_minimal_and_full() {
    let bare = UserInfo {
        username: "x".into(),
        ip: None,
        hwid: None,
        createdate: None,
        lastlogin: None,
        subscriptions: Some(vec![]),
    };
    assert_eq!(
        user_info_lines(&bare),
        vec!["\n=== User Data ===".to_string(), "Username: x".to_string(), String::new()]
    );
    let full = UserInfo {
        username: "y".into(),
        ip: Some("ip".into()),
        hwid: Some("hw".into()),
        createdate: Some("c".into()),
        lastlogin: Some("l".into()),
        subscriptions: Some(vec![
            Subscription { subscription: "a".into(), key: Some("k".into()), expiry: "e1".into(), timeleft: 61 },
            Subscription { subscription: "b".into(), key: None, expiry: "e2".into(), timeleft: 3600 },
        ]),
    };
    assert_eq!(
        user_info_lines(&full),
        vec![
            "\n=== User Data ===".to_string(),
            "Username: y".to_string(),
            "IP: ip".to_string(),
            "HWID: hw".to_string(),
            "Created: c".to_string(),
            "Last Login: l".to_string(),
            "\nSubscriptions:".to_string(),
            "[1] a | Expiry: e1 | Timeleft: 0d 0h 1m".to_string(),
            "[2] b | Expiry: e2 | Timeleft: 0d 1h 0m".to_string(),
            String::new(),
        ]
    );
}

#[test]
fn shown_date_prefers_rendering() {
    assert_eq!(shown_date("1700000000", Some("2023-11-14 10:13:20 PM".to_string())), "2023-11-14 10:13:20 PM");
    assert_eq!(shown_date("1700000000", None), "1700000000");
}

#[test]
fn date_range_edges() {
    assert_ne!(format_date("8210266876799"), "8210266876799");
    assert_eq!(format_date("8210266876800"), "8210266876800");
    assert_ne!(format_date("-8334601228800"), "-8334601228800");
    assert_eq!(format_date("-8334601228801"), "-8334601228801");
}

#[test]
fn epoch_shown_within_a_day() {
    let shown = format_date("0");
    assert!(shown.starts_with("1970-01-01 ") || shown.starts_with("1969-12-31 "), "{}", shown);
}
