use speedtest_tui::lookup::{
    format_location, interpret_ip_reply, ip_lookup_cooldown, parse_retry_after_seconds,
    IpLookupError, IpLookupReply, NANOS_PER_SEC,
};
use speedtest_tui::text::{decimal_string, is_blank, is_whitespace, text_eq, trim};

#[test]
fn trim_removes_unicode_white_space_at_both_ends() {
    assert_eq!(trim("  Addis Ababa \t\n"), "Addis Ababa");
    assert_eq!(trim("\u{3000}Tokyo\u{00A0}"), "Tokyo");
    assert_eq!(trim("   "), "");
    assert_eq!(trim(""), "");
    assert_eq!(trim("a b"), "a b");
}

#[test]
fn trim_agrees_with_std() {
    for s in ["", " x ", "\u{2028}y\u{2029}", "\u{200B}z", "\t\r\n mixed \u{85}", "é  "] {
        assert_eq!(trim(s), s.trim());
    }
}

#[test]
fn trim_twice_is_trim_once() {
    let once = trim("  \u{2003}spaced out\u{205F} ");
    assert_eq!(trim(once), once);
}

#[test]
fn whitespace_matches_std_on_the_first_code_points() {
    for u in 0u32..0x3100 {
        if let Some(c) = char::from_u32(u) {
            assert_eq!(is_whitespace(c), c.is_whitespace(), "code point {:x}", u);
        }
    }
}

#[test]
fn text_eq_compares_characters() {
    assert!(text_eq("light", "light"));
    assert!(!text_eq("light", "Light"));
    assert!(!text_eq("light", "lightx"));
    assert!(text_eq("", ""));
    assert!(is_blank(" \t "));
    assert!(!is_blank(" a "));
}

#[test]
fn decimal_string_matches_to_string() {
    for n in [0u64, 7, 10, 99, 1000, 123456789, u64::MAX] {
        assert_eq!(decimal_string(n), n.to_string());
    }
}

#[test]
fn format_location_joins_city_and_country() {
    assert_eq!(format_location("Addis Ababa", "Ethiopia"), "Addis Ababa, Ethiopia");
    assert_eq!(format_location("  Paris ", " France  "), "Paris, France");
}

#[test]
fn format_location_with_one_part_missing() {
    assert_eq!(format_location("", "Kenya"), "Kenya");
    assert_eq!(format_location("  ", " Kenya "), "Kenya");
    assert_eq!(format_location("Nairobi", ""), "Nairobi");
}

#[test]
fn format_location_with_both_missing() {
    assert_eq!(format_location("", ""), "Unknown location");
    assert_eq!(format_location(" \t", "\n"), "Unknown location");
}

#[test]
fn retry_after_reads_whole_seconds() {
    assert_eq!(parse_retry_after_seconds(Some(b"120")), Some(120));
    assert_eq!(parse_retry_after_seconds(Some(b"  42\t")), Some(42));
    assert_eq!(parse_retry_after_seconds(Some(b"+7")), Some(7));
    assert_eq!(parse_retry_after_seconds(Some(b"18446744073709551615")), Some(u64::MAX));
}

#[test]
fn retry_after_rejects_what_is_not_a_number() {
    assert_eq!(parse_retry_after_seconds(None), None);
    assert_eq!(parse_retry_after_seconds(Some(b"")), None);
    assert_eq!(parse_retry_after_seconds(Some(b"   ")), None);
    assert_eq!(parse_retry_after_seconds(Some(b"+")), None);
    assert_eq!(parse_retry_after_seconds(Some(b"-5")), None);
    assert_eq!(parse_retry_after_seconds(Some(b"1 2")), None);
    assert_eq!(parse_retry_after_seconds(Some(b"Wed, 21 Oct 2015 07:28:00 GMT")), None);
    assert_eq!(parse_retry_after_seconds(Some(b"18446744073709551616")), None);
    assert_eq!(parse_retry_after_seconds(Some(b"99999999999999999999999")), None);
    assert_eq!(parse_retry_after_seconds(Some(&[0x31, 0x0A])), None);
    assert_eq!(parse_retry_after_seconds(Some(&[0x31, 0xC3, 0xA9])), None);
}

#[test]
fn retry_after_agrees_with_std_parse() {
    for s in ["0", "007", "+12", "12a", " 9 ", "\t\t3", "4\t", "1.5", "+-1"] {
        let expected = s.trim().parse::<u64>().ok();
        assert_eq!(parse_retry_after_seconds(Some(s.as_bytes())), expected, "{:?}", s);
    }
}

#[test]
fn cooldown_starts_empty_and_allows_lookups() {
    let mut cd = ip_lookup_cooldown();
    assert_eq!(cd.until, None);
    assert!(cd.check(5).is_ok());
    assert_eq!(cd.until, None);
}

#[test]
fn cooldown_after_rate_limit_refuses_until_deadline() {
    let mut cd = ip_lookup_cooldown();
    let err = cd.start_after_rate_limit(1_000, Some(10));
    match err {
        IpLookupError::RateLimited { wait_secs } => assert_eq!(wait_secs, 10),
        other => panic!("unexpected {:?}", other),
    }
    assert_eq!(cd.until, Some(1_000 + 10 * NANOS_PER_SEC));
    match cd.check(1_000 + 3 * NANOS_PER_SEC + 5) {
        Err(IpLookupError::CooldownActive { wait_secs }) => assert_eq!(wait_secs, 6),
        other => panic!("unexpected {:?}", other),
    }
    match cd.check(1_000 + 10 * NANOS_PER_SEC - 1) {
        Err(IpLookupError::CooldownActive { wait_secs }) => assert_eq!(wait_secs, 1),
        other => panic!("unexpected {:?}", other),
    }
    assert!(cd.check(1_000 + 10 * NANOS_PER_SEC).is_ok());
    assert_eq!(cd.until, None);
}

#[test]
fn rate_limit_without_delay_uses_fallback() {
    let mut cd = ip_lookup_cooldown();
    let err = cd.start_after_rate_limit(0, None);
    assert_eq!(err.message(), "ip-api.com rate limit reached; retry after 300 seconds");
    assert_eq!(cd.until, Some(300 * NANOS_PER_SEC));
}

#[test]
fn rate_limit_with_zero_delay_reports_one_second() {
    let mut cd = ip_lookup_cooldown();
    let err = cd.start_after_rate_limit(50, Some(0));
    assert_eq!(err.message(), "ip-api.com rate limit reached; retry after 1 seconds");
    assert_eq!(cd.until, Some(50));
    assert!(cd.check(50).is_ok());
}

#[test]
fn rate_limit_far_in_the_future_ends_at_the_clock_end() {
    let mut cd = ip_lookup_cooldown();
    let _ = cd.start_after_rate_limit(10, Some(u64::MAX));
    assert_eq!(cd.until, Some(u64::MAX));
}

#[test]
fn cooldown_message_names_seconds_left() {
    let e = IpLookupError::CooldownActive { wait_secs: 42 };
    assert_eq!(e.message(), "ip-api.com cooldown active for 42 more seconds");
}

fn reply(success: bool) -> IpLookupReply {
    IpLookupReply {
        ip: "196.188.1.2".into(),
        success,
        message: String::new(),
        city: "Addis Ababa".into(),
        country: "Ethiopia".into(),
        isp: "Ethio Telecom".into(),
    }
}

#[test]
fn successful_reply_gives_address_information() {
    let info = interpret_ip_reply(reply(true)).unwrap();
    assert_eq!(info.ip, "196.188.1.2");
    assert_eq!(info.isp, "Ethio Telecom");
    assert_eq!(info.location, "Addis Ababa, Ethiopia");
}

#[test]
fn blank_fields_get_placeholders() {
    let mut r = reply(true);
    r.ip = "  ".into();
    r.isp = String::new();
    r.city = String::new();
    r.country = String::new();
    let info = interpret_ip_reply(r).unwrap();
    assert_eq!(info.ip, "Unknown");
    assert_eq!(info.isp, "Unknown ISP");
    assert_eq!(info.location, "Unknown location");
}

#[test]
fn unsuccessful_reply_gives_its_message() {
    let mut r = reply(false);
    r.message = "  Reserved range \n".into();
    match interpret_ip_reply(r) {
        Err(IpLookupError::Unsuccessful { message }) => assert_eq!(message, "Reserved range"),
        other => panic!("unexpected {:?}", other),
    }
    match interpret_ip_reply(reply(false)) {
        Err(e) => assert_eq!(e.message(), "ip-api.com returned an unsuccessful response"),
        other => panic!("unexpected {:?}", other),
    }
}

#[test]
fn decimal_text_reads_back_as_retry_after() {
    for n in [0u64, 1, 300, 86400, u64::MAX] {
        let text = decimal_string(n);
        assert_eq!(parse_retry_after_seconds(Some(text.as_bytes())), Some(n));
    }
}
