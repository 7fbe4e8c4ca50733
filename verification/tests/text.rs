use hash_miner::text::{
    decimal_text, is_white_space, join_lines, pad_right, parse_integer, same_text, skip_leading,
    take_leading, to_chars, trim, CharClass,
};

#[test]
fn white_space_is_unicode_white_space() {
    let mut code: u32 = 0;
    while code <= 0x10ffff {
        if let Some(c) = char::from_u32(code) {
            assert_eq!(is_white_space(c), c.is_whitespace(), "code point {code:#x}");
        }
        code += 1;
    }
}

#[test]
fn trim_takes_blanks_off_both_ends() {
    assert_eq!(trim("  0xab \n"), "0xab");
    assert_eq!(trim("\u{3000}kunci rahasia\u{a0}"), "kunci rahasia");
    assert_eq!(trim(" \t\r\n"), "");
    assert_eq!(trim(""), "");
    assert_eq!(trim("utuh"), "utuh");
}

#[test]
fn leading_runs_are_split_off() {
    assert_eq!(skip_leading("//status", CharClass::Slash), "status");
    assert_eq!(take_leading("status@MyBot", CharClass::NotAt), "status");
    assert_eq!(take_leading("stats now", CharClass::Visible), "stats");
    assert_eq!(skip_leading(" \t x", CharClass::Space), "x");
    assert_eq!(to_chars("⛏x"), vec!['⛏', 'x']);
}

#[test]
fn decimals_match_the_standard_rendering() {
    for n in [0u64, 7, 9, 10, 42, 99, 100, 4_194_304, u64::MAX - 1, u64::MAX] {
        assert_eq!(decimal_text(n), n.to_string());
    }
    assert_eq!(decimal_text(12345678), "12345678");
}

#[test]
fn integers_match_the_standard_parser() {
    for s in [
        "", "-", "+", "0", "-0", "+0", "5051864490", "-1001234567890", "+7", "--7", "+-7", "7 ",
        " 7", "7a", "a7", "1_000", "00012", "9223372036854775807", "9223372036854775808",
        "-9223372036854775808", "-9223372036854775809", "99999999999999999999999999999999",
        "9999999999999999999999999999999x", "٣",
    ] {
        assert_eq!(parse_integer(s), s.parse::<i64>().ok(), "{s:?}");
    }
}

#[test]
fn rendered_numbers_read_back() {
    for n in [0u64, 1, 10, 1 << 40, i64::MAX as u64] {
        assert_eq!(parse_integer(&decimal_text(n)), Some(n as i64));
    }
}

#[test]
fn lines_are_joined() {
    assert_eq!(join_lines(&vec![]), "");
    assert_eq!(join_lines(&vec!["a".to_string()]), "a");
    assert_eq!(join_lines(&vec!["a".to_string(), "".to_string(), "b".to_string()]), "a\n\nb");
}

#[test]
fn padding_counts_characters() {
    assert_eq!(pad_right("Akun", 6), "Akun  ");
    assert_eq!(pad_right("⛏", 3), format!("{:3}", "⛏"));
    assert_eq!(pad_right("panjang sekali", 4), "panjang sekali");
}

#[test]
fn texts_are_compared_by_content() {
    assert!(same_text("stop", "stop"));
    assert!(!same_text("stop", "Stop"));
    assert!(!same_text("stop", "stops"));
}
