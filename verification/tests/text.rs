use av1_super_daemon::clock::{millis_reading, seconds_reading, unix_millis, unix_seconds};
use av1_super_daemon::decimal::{decimal, parse_thousandths, parse_unsigned, signed_decimal};
use av1_super_daemon::paths::{extension, join_path};
use av1_super_daemon::text::{
    chars_of, concat2, contains_chars, contains_text, find_first, matches_at,
    same_chars, same_text, scan, space, trim, CharClass,
};

fn cs(s: &str) -> Vec<char> {
    s.chars().collect()
}

#[test]
fn characters_and_equality() {
    assert_eq!(chars_of("añ→b"), vec!['a', 'ñ', '→', 'b']);
    assert!(chars_of("").is_empty());
    assert!(same_text("abc", "abc"));
    assert!(!same_text("abc", "abd"));
    assert!(!same_text("abc", "ab"));
    assert!(same_text("", ""));
    assert!(same_chars(&cs("xy"), &cs("xy")));
    assert!(!same_chars(&cs("xy"), &cs("yx")));
    assert_eq!(concat2("ab", "cd"), "abcd");
}

#[test]
fn substring_search() {
    let hay = cs("hello world, hello");
    assert!(contains_text(&hay, "world"));
    assert!(contains_text(&hay, ""));
    assert!(contains_text(&hay, "hello world, hello"));
    assert!(!contains_text(&hay, "hello world, hello!"));
    assert!(!contains_text(&hay, "World"));
    assert!(contains_chars(&cs(""), &cs("")));
    assert!(!contains_chars(&cs(""), &cs("a")));
    assert!(matches_at(&hay, &cs("world"), 6));
    assert!(!matches_at(&hay, &cs("world"), 5));
    assert!(!matches_at(&hay, &cs("hello"), 14));
    assert!(matches_at(&hay, &cs(""), 18));
    assert!(!matches_at(&hay, &cs(""), 19));
    assert_eq!(find_first(&hay, &cs("hello"), 0, 18), 0);
    assert_eq!(find_first(&hay, &cs("hello"), 14, 18), 18);
    assert_eq!(find_first(&hay, &cs(""), 3, 18), 3);
    assert_eq!(find_first(&hay, &cs("hello"), 1, 18), 13);
    assert_eq!(find_first(&hay, &cs("hello"), 1, 17), 17);
    assert_eq!(find_first(&hay, &cs("o"), 0, 18), 4);
    assert_eq!(find_first(&hay, &cs("o"), 5, 5), 5);
}

#[test]
fn scanning_and_trimming() {
    let s = cs("  ab\tcd\n e.f-g nn8");
    assert_eq!(scan(&s, 0, s.len(), CharClass::NotSpace), 2);
    assert_eq!(scan(&s, 2, s.len(), CharClass::Space), 4);
    assert_eq!(scan(&s, 0, s.len(), CharClass::Newline), 7);
    assert_eq!(scan(&s, 8, s.len(), CharClass::DotOrDash), 10);
    assert_eq!(scan(&s, 11, s.len(), CharClass::DotOrDash), 12);
    assert_eq!(scan(&s, 15, s.len(), CharClass::NotN), 17);
    assert_eq!(scan(&s, 0, s.len(), CharClass::Point), 10);
    assert_eq!(scan(&s, 0, 2, CharClass::NotSpace), 2);
    assert_eq!(scan(&s, 3, 3, CharClass::Space), 3);
    assert_eq!(trim("  a b \n"), "a b");
    assert_eq!(trim(""), "");
    assert_eq!(trim(" \t\r\n"), "");
    assert_eq!(trim("x"), "x");
    assert_eq!(trim("\u{a0}\u{3000}x\u{2003}"), "x");
    for c in ['\u{0}', ' ', '\t', '\n', 'a', '\u{85}', '\u{a0}', '\u{1680}', '\u{180e}', '\u{2000}', '\u{200a}', '\u{200b}', '\u{2028}', '\u{2029}', '\u{202f}', '\u{205f}', '\u{3000}', '\u{feff}'] {
        assert_eq!(space(c), c.is_whitespace(), "{:?}", c);
    }
}

#[test]
fn white_space_agrees_for_every_character() {
    let mut c = 0u32;
    while c <= 0x10ffff {
        if let Some(ch) = char::from_u32(c) {
            assert_eq!(space(ch), ch.is_whitespace(), "{:x}", c);
        }
        c += 1;
    }
}

#[test]
fn decimal_numerals() {
    assert_eq!(decimal(0), "0");
    assert_eq!(decimal(9), "9");
    assert_eq!(decimal(10), "10");
    assert_eq!(decimal(1701388800), "1701388800");
    assert_eq!(decimal(u128::MAX), u128::MAX.to_string());
    assert_eq!(signed_decimal(0), "0");
    assert_eq!(signed_decimal(-1), "-1");
    assert_eq!(signed_decimal(i64::MIN), i64::MIN.to_string());
    assert_eq!(signed_decimal(i64::MAX), i64::MAX.to_string());
}

fn unsigned(text: &str, max: u64) -> Option<u64> {
    let v = cs(text);
    parse_unsigned(&v, 0, v.len(), max)
}

#[test]
fn unsigned_numbers_read_like_the_standard_library() {
    for text in ["0", "7", "+7", "007", "4294967295", "4294967296", "", "+", "-1", "1 ", " 1", "1_0", "١", "18446744073709551615", "18446744073709551616", "99999999999999999999999999", "++1", "1+"] {
        assert_eq!(unsigned(text, u64::MAX), text.parse::<u64>().ok(), "{:?}", text);
        assert_eq!(
            unsigned(text, u32::MAX as u64).map(|v| v as u32),
            text.parse::<u32>().ok(),
            "{:?}",
            text
        );
    }
    let v = cs("ab123cd");
    assert_eq!(parse_unsigned(&v, 2, 5, 1000), Some(123));
    assert_eq!(parse_unsigned(&v, 2, 5, 122), None);
    assert_eq!(parse_unsigned(&v, 2, 6, 1000), None);
    assert_eq!(parse_unsigned(&v, 3, 3, 1000), None);
    assert_eq!(unsigned("5", 0), None);
    assert_eq!(unsigned("0", 0), Some(0));
}

#[test]
fn thousandths() {
    assert_eq!(parse_thousandths("1.5"), Some(1500));
    assert_eq!(parse_thousandths("1.2345"), Some(1234));
    assert_eq!(parse_thousandths("+1.02"), Some(1020));
    assert_eq!(parse_thousandths("0"), Some(0));
    assert_eq!(parse_thousandths("3."), Some(3000));
    assert_eq!(parse_thousandths("."), None);
    assert_eq!(parse_thousandths("1e3"), None);
    assert_eq!(parse_thousandths("-1.0"), None);
}

#[test]
fn clock_readings() {
    assert_eq!(millis_reading(None), 0);
    assert_eq!(millis_reading(Some(1701388800123)), 1701388800123);
    assert_eq!(seconds_reading(None), 0);
    assert_eq!(seconds_reading(Some(1701388800999)), 1701388800);
    assert!(unix_millis() > 1577836800000);
    assert!(unix_seconds() > 1577836800);
    let s = unix_seconds() as i64;
    let ms = unix_millis();
    assert!((ms / 1000 - s).abs() <= 2);
}

#[test]
fn joining_paths() {
    for (dir, name) in [
        ("/tmp/out", "a.mkv"),
        ("/tmp/out/", "a.mkv"),
        ("", "a.mkv"),
        ("/tmp/out", "/abs/a.mkv"),
        ("/", "a"),
        ("rel", "x/y"),
        ("/tmp/out", ""),
        ("", ""),
        ("a//", "b"),
    ] {
        let expected = std::path::Path::new(dir).join(name).to_string_lossy().to_string();
        assert_eq!(join_path(dir, name), expected, "{:?} {:?}", dir, name);
    }
    assert_eq!(join_path("/tmp/out", "a.mkv"), "/tmp/out/a.mkv");
    assert_eq!(join_path("/tmp/out/", "a.mkv"), "/tmp/out/a.mkv");
    assert_eq!(join_path("/tmp/out", "/abs"), "/abs");
}

#[test]
fn extensions_agree_with_the_standard_library() {
    for path in [
        "/media/movie.mkv",
        "/media/movie.MKV",
        "/media/movie",
        "/media/.hidden",
        "/media/.hidden.mkv",
        "/media/a.b.c",
        "/media/dir.mkv/file",
        "/media/dir.mkv/",
        "/media/dir.mkv//",
        "/media/dir.mkv/.",
        "/media/dir.mkv/./",
        "/media/dir.mkv/..",
        "/media/trailing.",
        "/media/..mkv",
        "movie.mkv",
        "..",
        ".",
        "",
        "/",
        "//",
        "/.",
        "./.",
        "./a.b",
        "a/./b.c",
        "a/../b.c",
        "x/..",
        "x/...",
        "x/a..",
        "x/.a.",
        "ü.ñ",
        "/media/film.mkv.av1skip",
    ] {
        let expected = std::path::Path::new(path)
            .extension()
            .map(|e| e.to_string_lossy().to_string());
        assert_eq!(extension(path), expected, "{:?}", path);
    }
    assert_eq!(extension("/m/a.mkv"), Some("mkv".to_string()));
    assert_eq!(extension("/m/a"), None);
}
