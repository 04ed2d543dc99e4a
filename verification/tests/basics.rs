use conexus_tools::json::{jdecimal, jint, jlen, json_problem, Field, Json};
use conexus_tools::rounding::{part, round, ONE};
use conexus_tools::text::{
    comes_before, contains, join, shorten, show_i64, show_u64, suffix, title_case, to_ascii_lower,
    trim, trim_end_of,
};

#[test]
fn whitespace_is_trimmed_at_both_ends() {
    assert_eq!(trim(" \u{3000}a b\u{2028}\n"), "a b");
    assert_eq!(trim("\u{200b}x"), "\u{200b}x");
    assert_eq!(trim(" \t"), "");
    assert_eq!(trim_end_of("a//", '/'), "a");
}

#[test]
fn numbers_are_written_in_decimal() {
    assert_eq!(show_u64(0), "0");
    assert_eq!(show_u64(u64::MAX), "18446744073709551615");
    assert_eq!(show_i64(i64::MIN), "-9223372036854775808");
    assert_eq!(show_i64(120), "120");
}

#[test]
fn texts_are_ordered_by_their_characters() {
    assert!(comes_before("a", "b"));
    assert!(comes_before("a", "ab"));
    assert!(comes_before("", "a"));
    assert!(!comes_before("a", "a"));
    assert!(comes_before("z", "é"));
    assert!(comes_before("\u{ffff}", "\u{10000}"));
}

#[test]
fn parts_are_found_anywhere() {
    assert!(contains("abc", "bc"));
    assert!(contains("abc", ""));
    assert!(!contains("abc", "bd"));
    assert!(!contains("", "a"));
    assert!(contains("aab", "ab"));
}

#[test]
fn small_text_tools() {
    assert_eq!(join(&vec!["a".to_string(), "".to_string(), "b".to_string()], "-"), "a--b");
    assert_eq!(join(&vec![], "-"), "");
    assert_eq!(shorten("abcd", 3), "abc...");
    assert_eq!(shorten("abc", 3), "abc");
    assert_eq!(suffix("abcdef", 4), Some("cdef".to_string()));
    assert_eq!(to_ascii_lower("ÀBc"), "Àbc");
    assert_eq!(title_case("ǆ straße x1y"), "Ǆ Straße X1Y");
}

#[test]
fn objects_keep_the_later_of_two_entries() {
    let j = Json::Object(vec![
        Field { key: "a".to_string(), value: jint(1) },
        Field { key: "a".to_string(), value: jint(2) },
    ]);
    assert_eq!(j.int_at("a"), Some(2));
    assert_eq!(j.compact(), "{\"a\":2}");
    assert_eq!(j.copy().int_at("a"), Some(2));
}

#[test]
fn trees_are_written_as_text() {
    let j = Json::List(vec![
        Json::Null,
        Json::Bool(true),
        jint(-3),
        jlen(7),
        jdecimal("0.50"),
        Json::Text("\"".to_string()),
    ]);
    assert_eq!(j.compact(), "[null,true,-3,7,0.5,\"\\\"\"]");
    assert_eq!(Json::List(vec![jint(1)]).pretty(), "[\n  1\n]");
    assert_eq!(jdecimal("x"), Json::Null);
}

#[test]
fn only_integers_of_sixty_four_bits_are_read_as_integers() {
    let n = |v: serde_json::Number| {
        Json::Object(vec![Field { key: "n".to_string(), value: Json::Num(v) }]).int_at("n")
    };
    assert_eq!(n(serde_json::Number::from(5)), Some(5));
    assert_eq!(n(serde_json::Number::from(u64::MAX)), None);
    assert_eq!(n(serde_json::Number::from_f64(5.0).unwrap()), None);
    assert_eq!(Json::Text("5".to_string()).int_at("n"), None);
}

#[test]
fn json_problems_are_told() {
    assert_eq!(json_problem("{\"a\": [1, 2]}"), None);
    assert!(json_problem("{not valid").unwrap().starts_with("key must be a string"));
    assert!(json_problem("").is_some());
}

#[test]
fn parts_have_fifty_three_digits() {
    let one = ONE as f64;
    for q in [1usize, 3, 7, 10, 49, 1000, 999_983, 4_294_967_291] {
        for p in [0, 1, q / 3, q / 2, q - 1, q] {
            assert_eq!(part(p, q) as f64 / one, p as f64 / q as f64, "{p}/{q}");
        }
    }
    assert_eq!(round(9007199254740993), 9007199254740992);
    assert_eq!(round(9007199254740995), 9007199254740996);
    assert_eq!(round(9007199254740991), 9007199254740991);
    assert_eq!(round(0), 0);
    assert_eq!(round(1000 * ONE), 1000 * ONE);
}
