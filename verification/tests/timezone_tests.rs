use serve_md::timezone::{
    get_tz, is_space_char, parse_offset, sys_timezone, trim, HostReading, TimeZoneCache,
    TimeZoneInfo,
};

fn reading(offset: &str, zone: &str) -> HostReading {
    HostReading { offset: offset.to_string(), zone: zone.to_string() }
}

#[test]
fn offset_plus_0200_is_7200_seconds() {
    assert_eq!(parse_offset("+0200"), Some(7200));
}

#[test]
fn offset_minus_0530_is_minus_19800_seconds() {
    assert_eq!(parse_offset("-0530"), Some(-19800));
}

#[test]
fn offsets_at_the_ends_of_the_usual_range() {
    assert_eq!(parse_offset("-1200"), Some(-43200));
    assert_eq!(parse_offset("+1400"), Some(50400));
    assert_eq!(parse_offset("+0000"), Some(0));
    assert_eq!(parse_offset("-0000"), Some(0));
    assert_eq!(parse_offset("+0545"), Some(20700));
}

#[test]
fn largest_offset_that_can_be_written() {
    assert_eq!(parse_offset("+9999"), Some(362340));
    assert_eq!(parse_offset("-9999"), Some(-362340));
}

#[test]
fn text_that_is_no_offset() {
    assert_eq!(parse_offset(""), None);
    assert_eq!(parse_offset("+"), None);
    assert_eq!(parse_offset("0200"), None);
    assert_eq!(parse_offset("+020"), None);
    assert_eq!(parse_offset("+02000"), None);
    assert_eq!(parse_offset("+02:00"), None);
    assert_eq!(parse_offset("x0200"), None);
    assert_eq!(parse_offset(" 0200"), None);
    assert_eq!(parse_offset("+02x0"), None);
    assert_eq!(parse_offset("+-2+3"), None);
    assert_eq!(parse_offset("+0200\n"), None);
    assert_eq!(parse_offset("+\u{661}\u{662}00"), None);
    assert_eq!(parse_offset("UTC"), None);
}

#[test]
fn white_space_characters() {
    for c in [' ', '\t', '\n', '\r', '\u{b}', '\u{c}', '\u{85}', '\u{a0}', '\u{2003}', '\u{3000}'] {
        assert!(is_space_char(c), "{:?}", c);
    }
    for c in ['+', '0', 'a', '\u{0}', '\u{200b}', '\u{8}', '\u{e}'] {
        assert!(!is_space_char(c), "{:?}", c);
    }
}

#[test]
fn white_space_is_what_the_standard_library_trims() {
    for code in 0u32..0x3100u32 {
        if let Some(c) = char::from_u32(code) {
            assert_eq!(is_space_char(c), c.is_whitespace(), "{:?}", c);
        }
    }
}

#[test]
fn trim_drops_white_space_at_both_ends() {
    assert_eq!(trim("+0200\n"), "+0200");
    assert_eq!(trim("  CET \r\n"), "CET");
    assert_eq!(trim("\t a b \t"), "a b");
    assert_eq!(trim("abc"), "abc");
    assert_eq!(trim(""), "");
    assert_eq!(trim(" \n\t "), "");
    assert_eq!(trim("\u{a0}\u{e9}t\u{e9}\u{2003}"), "\u{e9}t\u{e9}");
}

#[test]
fn host_output_becomes_a_time_zone() {
    assert_eq!(
        sys_timezone("+0200\n", "CEST\n"),
        TimeZoneInfo { offset_sec: 7200, abbr: "CEST".to_string() }
    );
    assert_eq!(
        sys_timezone("-0530\n", "X\n"),
        TimeZoneInfo { offset_sec: -19800, abbr: "X".to_string() }
    );
}

#[test]
fn malformed_offset_counts_as_zero() {
    assert_eq!(sys_timezone("garbage\n", "UTC\n").offset_sec, 0);
    assert_eq!(sys_timezone("", "UTC\n").offset_sec, 0);
    assert_eq!(sys_timezone("+02\n", "UTC\n").offset_sec, 0);
    assert_eq!(sys_timezone("+02:00\n", "UTC\n").offset_sec, 0);
}

#[test]
fn missing_abbreviation_is_empty() {
    assert_eq!(
        sys_timezone("+0000\n", "\n"),
        TimeZoneInfo { offset_sec: 0, abbr: String::new() }
    );
    assert_eq!(sys_timezone("+0000", "").abbr, "");
}

#[test]
fn a_new_cache_holds_nothing() {
    let cache = TimeZoneCache::new();
    assert_eq!(cache.get(), None);
}

#[test]
fn the_first_resolution_asks_the_host() {
    let mut cache = TimeZoneCache::new();
    let tz = get_tz(&mut cache, || reading("+0100\n", "CET\n")).clone();
    assert_eq!(tz, TimeZoneInfo { offset_sec: 3600, abbr: "CET".to_string() });
    assert_eq!(cache.get(), Some(&tz));
}

#[test]
fn the_second_resolution_repeats_the_first() {
    let mut cache = TimeZoneCache::new();
    let first = get_tz(&mut cache, || reading("+0100\n", "CET\n")).clone();
    let second = get_tz(&mut cache, || reading("+0200\n", "CEST\n")).clone();
    assert_eq!(first, second);
    assert_eq!(second, TimeZoneInfo { offset_sec: 3600, abbr: "CET".to_string() });
}

#[test]
fn the_host_is_asked_once() {
    let mut cache = TimeZoneCache::new();
    let mut asked = 0;
    for _ in 0..5 {
        let tz = get_tz(&mut cache, || {
            asked += 1;
            reading("-0800\n", "PST\n")
        });
        assert_eq!(tz.offset_sec, -28800);
        assert_eq!(tz.abbr, "PST");
    }
    assert_eq!(asked, 1);
}
