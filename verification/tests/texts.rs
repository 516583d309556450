use pandascore::decimal::{parse_i64, parse_u32, parse_u64, push_i64, u32_text, u64_text};
use pandascore::endpoint::key::parse_key;
use pandascore::text::{find_char, join_with, split_at_char};

fn parts(key: &str) -> Option<(String, Option<String>)> {
    parse_key(key).map(|p| (p.bucket, p.subkey))
}

#[test]
fn numbers_are_parsed_as_rust_parses_them() {
    for text in ["0", "7", "+7", "007", "4294967295", "4294967296", "", "+", "-0", "-1", "1 ", "1_0", "٣"] {
        assert_eq!(parse_u32(text), text.parse::<u32>().ok(), "{text:?}");
    }
    for text in ["18446744073709551615", "18446744073709551616", "99999999999999999999", "+0"] {
        assert_eq!(parse_u64(text), text.parse::<u64>().ok(), "{text:?}");
    }
    for text in [
        "0", "-0", "+12", "-12", "9223372036854775807", "9223372036854775808",
        "-9223372036854775808", "-9223372036854775809", "-", "--1", "+-1", "1-",
    ] {
        assert_eq!(parse_i64(text), text.parse::<i64>().ok(), "{text:?}");
    }
}

#[test]
fn numbers_are_written_in_decimal() {
    assert_eq!(u32_text(0), "0");
    assert_eq!(u32_text(4294967295), "4294967295");
    assert_eq!(u64_text(10), "10");
    assert_eq!(u64_text(u64::MAX), "18446744073709551615");
    let mut out = String::from("x");
    push_i64(&mut out, i64::MIN);
    push_i64(&mut out, 0);
    push_i64(&mut out, -45);
    assert_eq!(out, "x-92233720368547758080-45");
    for n in [0, 1, 9, 10, 99, 100, 12345, u32::MAX] {
        assert_eq!(parse_u32(&u32_text(n)), Some(n));
    }
}

#[test]
fn texts_are_split_and_joined_at_commas() {
    assert_eq!(split_at_char("a,b", ','), vec!["a", "b"]);
    assert_eq!(split_at_char("", ','), vec![""]);
    assert_eq!(split_at_char(",a,,", ','), vec!["", "a", "", ""]);
    assert_eq!(join_with(&vec!["a".to_owned(), "".to_owned(), "b".to_owned()], ","), "a,,b");
    assert_eq!(join_with(&vec![], ","), "");
    assert_eq!(find_char("a,b,c", ','), 1);
    assert_eq!(find_char("abc", ','), 3);
    assert_eq!(find_char("é,", ','), 1);
}

#[test]
fn keys_are_taken_apart() {
    assert_eq!(parts("filter[name]"), Some(("filter".to_owned(), Some("name".to_owned()))));
    assert_eq!(parts("sort"), Some(("sort".to_owned(), None)));
    assert_eq!(parts("per_page"), Some(("per_page".to_owned(), None)));
    assert_eq!(parts("page[number]"), Some(("page".to_owned(), Some("number".to_owned()))));
    assert_eq!(parts("filter[a]b]c"), Some(("filter".to_owned(), Some("a]b".to_owned()))));
    assert_eq!(parts("filter[]"), Some(("filter".to_owned(), None)));
    assert_eq!(parts("filter[a"), Some(("filter".to_owned(), None)));
    assert_eq!(parts("filter[a\nb]"), Some(("filter".to_owned(), None)));
    assert_eq!(parts("filter[a]\n]"), Some(("filter".to_owned(), Some("a".to_owned()))));
    assert_eq!(parts("X-filter [name]"), Some(("filter".to_owned(), None)));
    assert_eq!(parts("12[name]"), Some(("name".to_owned(), None)));
    assert_eq!(parts("1234"), None);
    assert_eq!(parts(""), None);
}
