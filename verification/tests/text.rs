use sentiment_api::json::{write_array, write_member, write_object};
use sentiment_api::score::Score;
use sentiment_api::text::{integer_to_string, join};

fn strings(parts: &[&str]) -> Vec<String> {
    parts.iter().map(|part| part.to_string()).collect()
}

#[test]
fn integers_are_written_in_decimal() {
    assert_eq!(integer_to_string(0), "0");
    assert_eq!(integer_to_string(7), "7");
    assert_eq!(integer_to_string(10), "10");
    assert_eq!(integer_to_string(123), "123");
    assert_eq!(integer_to_string(1_000_000), "1000000");
    assert_eq!(integer_to_string(-1), "-1");
    assert_eq!(integer_to_string(-90), "-90");
}

#[test]
fn extreme_integers_are_written_in_full() {
    assert_eq!(integer_to_string(i32::MAX), "2147483647");
    assert_eq!(integer_to_string(i32::MIN), "-2147483648");
}

#[test]
fn integers_are_written_as_the_standard_library_writes_them() {
    for value in [0, 1, 9, 10, 11, 99, 100, 101, 4096, -5, -10, -4096, i32::MAX, i32::MIN] {
        assert_eq!(integer_to_string(value), value.to_string());
    }
}

#[test]
fn joining_puts_the_separator_between_neighbours_only() {
    assert_eq!(join(&strings(&[]), ", "), "");
    assert_eq!(join(&strings(&["a"]), ", "), "a");
    assert_eq!(join(&strings(&["a", "b"]), ", "), "a, b");
    assert_eq!(join(&strings(&["a", "b", "c"]), "\n"), "a\nb\nc");
    assert_eq!(join(&strings(&["", ""]), ","), ",");
    assert_eq!(join(&strings(&["a", "b"]), ""), "ab");
}

#[test]
fn member_names_are_quoted() {
    assert_eq!(write_member("id", "1"), "\"id\":1");
    assert_eq!(write_member("title", "\"x\""), "\"title\":\"x\"");
    assert_eq!(write_member("", "null"), "\"\":null");
}

#[test]
fn member_names_are_escaped() {
    assert_eq!(write_member("a\"b", "1"), "\"a\\\"b\":1");
    assert_eq!(write_member("a\\b", "1"), "\"a\\\\b\":1");
    assert_eq!(write_member("a\nb", "1"), "\"a\\nb\":1");
    assert_eq!(write_member("a\u{1}b", "1"), "\"a\\u0001b\":1");
    assert_eq!(write_member("caf\u{e9}", "1"), "\"caf\u{e9}\":1");
}

#[test]
fn objects_and_arrays_are_framed() {
    assert_eq!(write_object(&strings(&[])), "{}");
    assert_eq!(write_object(&strings(&["\"a\":1"])), "{\"a\":1}");
    assert_eq!(write_object(&strings(&["\"a\":1", "\"b\":2"])), "{\"a\":1,\"b\":2}");
    assert_eq!(write_array(&strings(&[])), "[]");
    assert_eq!(write_array(&strings(&["1"])), "[1]");
    assert_eq!(write_array(&strings(&["1", "{}", "[]"])), "[1,{},[]]");
}

#[test]
fn numbers_are_accepted() {
    for text in [
        "0", "-0", "7", "10", "123", "-123", "0.5", "-0.3", "0.9", "1.0", "10.25", "1e5", "1E5",
        "1e+5", "1e-7", "1.5e300", "-2.5E-3", "0e0", "0.0", "1e16", "5e-324",
    ] {
        let score = Score::parse(text);
        assert!(score.is_some(), "{}", text);
        assert_eq!(score.unwrap().as_str(), text);
    }
}

#[test]
fn texts_that_are_no_numbers_are_rejected() {
    for text in [
        "", "-", "+1", ".5", "1.", "01", "-01", "00", "1e", "1e+", "1e-", "e5", "1.e5", "1.5.2",
        "1e5.5", "1e5e5", " 1", "1 ", "1,5", "abc", "NaN", "inf", "-inf", "null", "0x10", "1_000",
        "--1", "1-", "\u{661}", "1\u{e9}", "1\n",
    ] {
        assert!(Score::parse(text).is_none(), "{:?}", text);
    }
}

#[test]
fn numbers_are_what_serde_json_reads_as_numbers() {
    for text in ["0", "-0", "0.5", "-0.3", "1e5", "1E-7", "12.5e+3", "01", "1.", ".5", "+1", "1e", "-"] {
        let read = serde_json::from_str::<serde_json::Value>(text);
        let is_number = matches!(read, Ok(serde_json::Value::Number(_)));
        assert_eq!(Score::parse(text).is_some(), is_number, "{:?}", text);
    }
}

#[test]
fn scores_written_by_serde_json_are_numbers() {
    for value in [0.5f64, -0.3, 0.9, 0.6, 1.0, -1.0, 0.0, 1e-7, 1.5e300, 123456.789, f64::MIN_POSITIVE] {
        let text = serde_json::to_string(&value).unwrap();
        let score = Score::parse(&text).unwrap();
        assert_eq!(score.as_str().parse::<f64>().unwrap(), value);
    }
}

#[test]
fn a_duplicate_is_the_same_score() {
    let score = Score::parse("-0.25").unwrap();
    assert_eq!(score.duplicate().as_str(), "-0.25");
    assert_eq!(score.as_str(), "-0.25");
}
