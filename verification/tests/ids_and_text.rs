use local_w2g::protocol::{ParseIdError, Permissions, Snowflake};
use local_w2g::sizes::format_size;
use local_w2g::text::{
    chars_of, i64_to_dec, is_whitespace, parse_i64_chars, replace, string_of, to_ascii_lowercase,
    trim_end_matches_char, trim_ws, u64_to_dec,
};

fn reference_size(bytes: u64) -> String {
    let units = ["B", "KB", "MB", "GB", "TB"];
    let mut size = bytes as f64;
    let mut unit_index = 0;
    while size >= 1024.0 && unit_index < units.len() - 1 {
        size /= 1024.0;
        unit_index += 1;
    }
    if unit_index == 0 {
        format!("{} {}", size as u64, units[unit_index])
    } else {
        format!("{:.2} {}", size, units[unit_index])
    }
}

fn s(v: &str) -> Vec<char> {
    v.chars().collect()
}

#[test]
fn format_size_exact_values() {
    assert_eq!(format_size(0), "0 B");
    assert_eq!(format_size(1023), "1023 B");
    assert_eq!(format_size(1024), "1.00 KB");
    assert_eq!(format_size(1536), "1.50 KB");
    assert_eq!(format_size(1024 * 1024), "1.00 MB");
    assert_eq!(format_size(10 * 1024 * 1024), "10.00 MB");
    assert_eq!(format_size(1024u64.pow(4)), "1.00 TB");
    assert_eq!(format_size(1024u64.pow(5)), "1024.00 TB");
}

#[test]
fn format_size_matches_float_formatting() {
    let mut cases: Vec<u64> = vec![
        1152,
        1126,
        1127,
        1048575,
        1048576 + 5242,
        5_368_709_120,
        u64::MAX,
        u64::MAX - 1,
        (1u64 << 53) + 1,
        123_456_789_012_345,
        999_999_999_999,
    ];
    let mut x: u64 = 1;
    for _ in 0..4000 {
        x = x.wrapping_mul(6364136223846793005).wrapping_add(1442695040888963407);
        cases.push(x >> (x % 64));
        cases.push((x >> 40) + 1024);
    }
    for k in 0..2048u64 {
        cases.push(1024 + k * 5);
    }
    for b in cases {
        assert_eq!(format_size(b), reference_size(b), "bytes = {}", b);
    }
}

#[test]
fn whitespace_matches_std() {
    for c in (0u32..0x3100).filter_map(char::from_u32) {
        assert_eq!(is_whitespace(c), c.is_whitespace(), "char {:x}", c as u32);
    }
    assert!(is_whitespace('\u{3000}'));
    assert!(!is_whitespace('\u{200B}'));
}

#[test]
fn snowflake_text_round_trip() {
    for v in [0i64, 1, -1, 42, i64::MAX, i64::MIN, 1234567890123456789] {
        let id = Snowflake(v);
        assert_eq!(id.to_string(), v.to_string());
        assert_eq!(Snowflake::parse(&id.to_string()), Ok(id));
    }
}

#[test]
fn snowflake_parse_matches_std() {
    let inputs = [
        "", "+", "-", "12", "+12", "-12", "1a", "a1", " 1", "9223372036854775807",
        "9223372036854775808", "-9223372036854775808", "-9223372036854775809",
        "99999999999999999999x", "-99999999999999999999x", "00042", "++1", "+-1", "١",
    ];
    for t in inputs {
        let expected = t.parse::<i64>();
        let got = Snowflake::parse(t);
        match expected {
            Ok(v) => assert_eq!(got, Ok(Snowflake(v)), "input {:?}", t),
            Err(e) => {
                let kind = match e.kind() {
                    std::num::IntErrorKind::Empty => ParseIdError::Empty,
                    std::num::IntErrorKind::InvalidDigit => ParseIdError::InvalidDigit,
                    std::num::IntErrorKind::PosOverflow => ParseIdError::PosOverflow,
                    std::num::IntErrorKind::NegOverflow => ParseIdError::NegOverflow,
                    _ => unreachable!(),
                };
                assert_eq!(got, Err(kind), "input {:?}", t);
            }
        }
    }
}

#[test]
fn decimal_helpers() {
    assert_eq!(u64_to_dec(0), s("0"));
    assert_eq!(u64_to_dec(u64::MAX), s("18446744073709551615"));
    assert_eq!(i64_to_dec(i64::MIN), s("-9223372036854775808"));
    assert_eq!(parse_i64_chars(&s("-17")), Some(-17));
    assert_eq!(parse_i64_chars(&s("x")), None);
}

#[test]
fn string_helpers() {
    assert_eq!(string_of(&s("héllo")), "héllo");
    assert_eq!(chars_of("ab"), vec!['a', 'b']);
    assert_eq!(trim_ws(&s("\t a b \u{3000}")), s("a b"));
    assert_eq!(trim_end_matches_char(&s("a///"), '/'), s("a"));
    assert_eq!(replace(&s("aXbXX"), &s("X"), &s("yy")), s("ayybyyyy"));
    assert_eq!(replace(&s("aaa"), &s("aa"), &s("b")), s("ba"));
    assert_eq!(to_ascii_lowercase(&s("MkV-É")), s("mkv-É"));
}

#[test]
fn permission_flags() {
    let p = Permissions::manage_playback().union(Permissions::send_message());
    assert_eq!(p.bits(), 3);
    assert!(p.contains(Permissions::send_message()));
    assert!(!p.contains(Permissions::manage_users()));
    assert!(p.intersects(Permissions::manage_playback()));
    assert_eq!(p.difference(Permissions::manage_playback()).bits(), 2);
    assert_eq!(Permissions::all().bits(), 31);
    assert_eq!(Permissions::from_bits_truncate(-1).bits(), 31);
    assert_eq!(Permissions::from_bits_truncate(64 + 8).bits(), 8);
    let mut q = Permissions::empty();
    q.insert(Permissions::manage_media());
    assert_eq!(q.bits(), 16);
    q.set(Permissions::send_state(), true);
    assert_eq!(q.bits(), 24);
    q.set(Permissions::manage_media(), false);
    assert_eq!(q.bits(), 8);
    q.remove(Permissions::send_state());
    assert_eq!(q, Permissions::empty());
    assert_eq!(Permissions::manage_users().first_flag_name(), Some("MANAGE_USERS"));
    assert_eq!(Permissions::all().first_flag_name(), Some("MANAGE_PLAYBACK"));
    assert_eq!(Permissions::empty().first_flag_name(), None);
}

#[test]
fn permission_laws_on_values() {
    let a = Permissions::from_bits_truncate(0b10110);
    let b = Permissions::from_bits_truncate(0b00011);
    let u = a.union(b);
    assert!(u.contains(a) && u.contains(b));
    assert!(a.contains(a) && a.contains(Permissions::empty()));
    let mut r = a;
    r.remove(b);
    assert!(!r.intersects(b));
    assert_eq!(Permissions::from_bits_truncate(a.bits()), a);
}

#[test]
fn snowflake_parse_agrees_with_i64_parse() {
    for s in [
        "0", "42", "-42", "+7", "", "-", "+", "1x", "x1", " 1", "9223372036854775807",
        "9223372036854775808", "-9223372036854775808", "-9223372036854775809", "007", "--1",
    ] {
        assert_eq!(Snowflake::parse(s).ok(), s.parse::<i64>().ok().map(Snowflake), "{s:?}");
        assert_eq!(parse_i64_chars(&s.chars().collect()), s.parse::<i64>().ok(), "{s:?}");
    }
}
