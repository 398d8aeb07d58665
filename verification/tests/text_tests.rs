use metalcraft_agent_gateway::text::{decimal, parse_u16, str_eq, strip_prefix, trim_colons, join2};

#[test]
fn decimal_writes_numbers() {
    assert_eq!(decimal(0), "0");
    assert_eq!(decimal(7), "7");
    assert_eq!(decimal(50), "50");
    assert_eq!(decimal(583231), "583231");
    assert_eq!(decimal(u64::MAX), "18446744073709551615");
}

#[test]
fn parse_u16_accepts_plain_and_plus_signed_numbers() {
    assert_eq!(parse_u16("3000"), Some(3000));
    assert_eq!(parse_u16("+8080"), Some(8080));
    assert_eq!(parse_u16("0"), Some(0));
    assert_eq!(parse_u16("65535"), Some(65535));
    assert_eq!(parse_u16("007"), Some(7));
}

#[test]
fn parse_u16_refuses_what_str_parse_refuses() {
    for s in ["", "+", "65536", "99999999999", "-1", " 80", "80 ", "8o", "++1", "1_000"] {
        assert_eq!(parse_u16(s), None, "{s:?}");
        assert!(s.parse::<u16>().is_err(), "{s:?}");
    }
}

#[test]
fn parse_u16_agrees_with_std_on_samples() {
    for s in ["1", "+0", "12345", "65535", "00065535", "655350", "a", ""] {
        assert_eq!(parse_u16(s), s.parse::<u16>().ok(), "{s:?}");
    }
}

#[test]
fn decimal_parses_back_for_ports() {
    for n in [0u16, 1, 80, 3000, 65535] {
        assert_eq!(parse_u16(&decimal(n as u64)), Some(n));
    }
}

#[test]
fn trim_colons_strips_both_ends_like_trim_matches() {
    for s in [":thumbsup:", "thumbsup", "::a:b::", ":::", "", "a:", ":a", "a:b"] {
        assert_eq!(trim_colons(s), s.trim_matches(':'), "{s:?}");
    }
    assert_eq!(trim_colons(":+1:"), "+1");
    assert_eq!(trim_colons("::a:b::"), "a:b");
}

#[test]
fn trim_colons_is_idempotent() {
    let once = trim_colons("::wave::");
    assert_eq!(trim_colons(once), once);
}

#[test]
fn strip_prefix_matches_std() {
    assert_eq!(strip_prefix("sha256=abc", "sha256="), Some("abc"));
    assert_eq!(strip_prefix("sha1=abc", "sha256="), None);
    assert_eq!(strip_prefix("sha2", "sha256="), None);
    assert_eq!(strip_prefix("sha256=", "sha256="), Some(""));
}

#[test]
fn str_eq_and_join2() {
    assert!(str_eq("héllo", "héllo"));
    assert!(!str_eq("a", "b"));
    assert_eq!(join2("Bearer ", "k"), "Bearer k");
}
