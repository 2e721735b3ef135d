use base64::Engine;
use qbee_limiter::encoding::{base64_basic, url_encode};
use qbee_limiter::text::{lower, parse_i64_chars, parse_u64_chars, chars_of, trim_str, lines_chars, split_chars, replace_chars, string_of, u64_text, i64_text};
use qbee_limiter::wide::{from_wide, wide};

fn s(v: &Vec<char>) -> String {
    v.iter().collect()
}

#[test]
fn url_encode_keeps_unreserved_and_escapes_the_rest() {
    assert_eq!(url_encode("AZaz09-_.~"), "AZaz09-_.~");
    assert_eq!(url_encode("a b&c/é"), "a%20b%26c%2F%C3%A9");
    assert_eq!(url_encode(""), "");
    assert_eq!(url_encode("密码"), "%E5%AF%86%E7%A0%81");
}

#[test]
fn base64_basic_matches_standard_base64_of_user_colon_password() {
    for (user, pass) in [("admin", "adminadmin"), ("", ""), ("a", ""), ("用户", "p@ss:word"), ("ab", "c")] {
        let expected = base64::engine::general_purpose::STANDARD.encode(format!("{user}:{pass}"));
        assert_eq!(base64_basic(user, pass), expected);
    }
    assert_eq!(base64_basic("admin", "adminadmin"), "YWRtaW46YWRtaW5hZG1pbg==");
}

#[test]
fn decimal_texts() {
    assert_eq!(u64_text(0), "0");
    assert_eq!(u64_text(18446744073709551615), "18446744073709551615");
    assert_eq!(i64_text(-42), "-42");
    assert_eq!(i64_text(i64::MIN), "-9223372036854775808");
}

#[test]
fn parsing_integers_like_str_parse() {
    assert_eq!(parse_u64_chars(&chars_of("123")), Some(123));
    assert_eq!(parse_u64_chars(&chars_of("+7")), Some(7));
    assert_eq!(parse_u64_chars(&chars_of("")), None);
    assert_eq!(parse_u64_chars(&chars_of("-1")), None);
    assert_eq!(parse_u64_chars(&chars_of(" 1")), None);
    assert_eq!(parse_u64_chars(&chars_of("18446744073709551616")), None);
    assert_eq!(parse_i64_chars(&chars_of("-9223372036854775808")), Some(i64::MIN));
    assert_eq!(parse_i64_chars(&chars_of("9223372036854775808")), None);
    assert_eq!(parse_i64_chars(&chars_of("-")), None);
}

#[test]
fn trimming_lines_splitting_replacing() {
    assert_eq!(trim_str("  \t hi \u{3000}\n"), "hi");
    let ls: Vec<String> = lines_chars(&chars_of("a\r\nb\n\nc\r")).iter().map(s).collect();
    assert_eq!(ls, vec!["a", "b", "", "c\r"]);
    let ls: Vec<String> = lines_chars(&chars_of("x\n")).iter().map(s).collect();
    assert_eq!(ls, vec!["x"]);
    let parts: Vec<String> = split_chars(&chars_of("a\"b\"\"c"), '"').iter().map(s).collect();
    assert_eq!(parts, vec!["a", "b", "", "c"]);
    let r = replace_chars(&chars_of("C:\\\\Games\\\\x"), &chars_of("\\\\"), &chars_of("\\"));
    assert_eq!(string_of(&r), "C:\\Games\\x");
}

#[test]
fn lower_case_is_unicode_lower_case() {
    assert_eq!(lower("Steam.EXE"), "steam.exe");
    assert_eq!(lower("ÄÖ"), "äö");
}

#[test]
fn wide_text_round_trip() {
    assert_eq!(wide("ab"), vec![97, 98, 0]);
    assert_eq!(wide("€"), vec![0x20AC, 0]);
    assert_eq!(wide("😀"), vec![0xD83D, 0xDE00, 0]);
    let expected: Vec<u16> = "游戏😀x".encode_utf16().chain(Some(0)).collect();
    assert_eq!(wide("游戏😀x"), expected);
    assert_eq!(from_wide(&wide("游戏😀x")), "游戏😀x");
    assert_eq!(from_wide(&[104, 105, 0, 120]), "hi");
    assert_eq!(from_wide(&[104, 105]), "hi");
    assert_eq!(from_wide(&[0xD800, 0]), "\u{FFFD}");
}
