use systemstats::{parse_hex_color, FALLBACK_COLOR};

#[test]
fn plain_and_hash_prefixed() {
    assert_eq!(parse_hex_color("00B4D8"), 0x00B4D8);
    assert_eq!(parse_hex_color("#00B4D8"), 0x00B4D8);
    assert_eq!(parse_hex_color("#FB8500"), 0xFB8500);
    assert_eq!(parse_hex_color("9b5de5"), 0x9B5DE5);
}

#[test]
fn hash_prefix_is_ignored() {
    for s in ["abc", "FFD700", "", "zz", "+1", "#12"] {
        let with_hash = format!("#{}", s);
        assert_eq!(parse_hex_color(&with_hash), parse_hex_color(s));
    }
    assert_eq!(parse_hex_color("###FF"), 0xFF);
}

#[test]
fn surrounding_whitespace_is_ignored() {
    assert_eq!(parse_hex_color("  #9b5de5 \n"), 0x9B5DE5);
    assert_eq!(parse_hex_color("\t00D4AA\r\n"), 0x00D4AA);
    assert_eq!(parse_hex_color("\u{3000}FF\u{2028}"), 0xFF);
    assert_eq!(parse_hex_color("\u{a0}12\u{85}"), 0x12);
}

#[test]
fn unreadable_text_gives_fallback() {
    assert_eq!(FALLBACK_COLOR, 0x00B4D8);
    assert_eq!(parse_hex_color(""), FALLBACK_COLOR);
    assert_eq!(parse_hex_color("   "), FALLBACK_COLOR);
    assert_eq!(parse_hex_color("#"), FALLBACK_COLOR);
    assert_eq!(parse_hex_color("zz"), FALLBACK_COLOR);
    assert_eq!(parse_hex_color("# FF"), FALLBACK_COLOR);
    assert_eq!(parse_hex_color("FF FF"), FALLBACK_COLOR);
    assert_eq!(parse_hex_color("0x10"), FALLBACK_COLOR);
    assert_eq!(parse_hex_color("\u{e9}"), FALLBACK_COLOR);
    assert_eq!(parse_hex_color("+"), FALLBACK_COLOR);
    assert_eq!(parse_hex_color("-FF"), FALLBACK_COLOR);
    assert_eq!(parse_hex_color("+-1"), FALLBACK_COLOR);
}

#[test]
fn sign_and_width() {
    assert_eq!(parse_hex_color("+FF"), 0xFF);
    assert_eq!(parse_hex_color("#+10"), 0x10);
    assert_eq!(parse_hex_color("FFFFFFFF"), 0xFFFF_FFFF);
    assert_eq!(parse_hex_color("100000000"), FALLBACK_COLOR);
    assert_eq!(parse_hex_color("00000000000000ff"), 0xFF);
}

#[test]
fn agrees_with_std_on_samples() {
    let samples = [
        "0", "7", "a", "F", "dead", "BEEF", "+c0ffee", "1234567", "12345678", "123456789",
        "g1", "1g", " 1", "ff\u{2000}", "#", "##1",
    ];
    for s in samples {
        let t = s.trim().trim_start_matches('#');
        let expected = u32::from_str_radix(t, 16).unwrap_or(0x00B4D8);
        assert_eq!(parse_hex_color(s), expected, "sample {:?}", s);
    }
}
