use alms_runs::ids::{id_text, parse_id};
use alms_runs::text::{
    chars_of, collapse_lines, decimal_text, join_lines, parse_u64, replace_all,
    starts_with, strip_prefix, truncate_bytes, truncate_chars,
};
use uuid::Uuid;

#[test]
fn identifiers_are_written_and_read_back() {
    assert_eq!(id_text(0), "00000000-0000-0000-0000-000000000000");
    assert_eq!(
        id_text(0x0123_4567_89ab_cdef_0123_4567_89ab_cdef),
        "01234567-89ab-cdef-0123-456789abcdef"
    );
    for _ in 0..20 {
        let id = Uuid::new_v4();
        assert_eq!(id_text(id.as_u128()), id.to_string());
        assert_eq!(parse_id(&id.to_string()), Some(id.as_u128()));
    }
}

#[test]
fn identifiers_are_read_in_every_accepted_form() {
    let value = 0x0123_4567_89ab_cdef_0123_4567_89ab_cdef_u128;
    for text in [
        "0123456789abcdef0123456789abcdef",
        "01234567-89ab-cdef-0123-456789abcdef",
        "01234567-89AB-CDEF-0123-456789ABCDEF",
        "{01234567-89ab-cdef-0123-456789abcdef}",
        "urn:uuid:01234567-89ab-cdef-0123-456789abcdef",
        "URN:UUID:01234567-89ab-cdef-0123-456789abcdef",
    ] {
        assert_eq!(parse_id(text), Some(value), "{text}");
    }
    for text in [
        "",
        "0123456789abcdef0123456789abcde",
        "0123456789abcdef0123456789abcdeg",
        "01234567_89ab-cdef-0123-456789abcdef",
        "0123456789ab-cdef-0123-456789abcdef",
        "{0123456789abcdef0123456789abcdef}",
        "urn:uuid:0123456789abcdef0123456789abcdef",
        "あ123456789abcdef0123456789abcdef",
    ] {
        assert_eq!(parse_id(text), None, "{text}");
    }
}

#[test]
fn prefixes_are_found_and_taken_off() {
    assert!(starts_with("job_1", "job_"));
    assert!(!starts_with("job", "job_"));
    assert!(starts_with("あい", "あ"));
    assert_eq!(strip_prefix("job_1", "job_"), Some("1"));
    assert_eq!(strip_prefix("web", "job_"), None);
}

#[test]
fn texts_are_cut_by_characters_or_bytes() {
    assert_eq!(truncate_chars("abc", 3), ("abc".to_string(), false));
    assert_eq!(truncate_chars("abcd", 3), ("abc...".to_string(), true));
    assert_eq!(truncate_chars("ああああ", 3), ("あああ...".to_string(), true));
    assert_eq!(truncate_bytes("ああ", 6), "ああ");
    assert_eq!(truncate_bytes("ああ", 5), "あ...");
    assert_eq!(truncate_bytes("é€😀", 8), "é€...");
    assert_eq!(truncate_bytes("é€😀", usize::MAX), "é€😀");
}

#[test]
fn numbers_are_written_and_read() {
    assert_eq!(decimal_text(0), "0");
    assert_eq!(decimal_text(u64::MAX), "18446744073709551615");
    assert_eq!(parse_u64("0042"), Some(42));
    assert_eq!(parse_u64("+"), None);
    assert_eq!(parse_u64(" 1"), None);
    assert_eq!(parse_u64("1a"), None);
}

#[test]
fn lines_are_joined_and_collapsed() {
    assert_eq!(collapse_lines("a\nb\r\nc"), "a b  c");
    assert_eq!(
        join_lines(&vec!["a".to_string(), "b".to_string(), "c".to_string()], 1),
        "b\nc"
    );
    assert_eq!(join_lines(&vec![], 0), "");
    assert_eq!(chars_of("aé"), vec!['a', 'é']);
}

#[test]
fn every_occurrence_is_replaced_once() {
    assert_eq!(replace_all("{a}-{a}", "{a}", "x"), "x-x");
    assert_eq!(replace_all("aaa", "aa", "b"), "ba");
    assert_eq!(replace_all("{a}", "{a}", "{a}{a}"), "{a}{a}");
    assert_eq!(replace_all("none", "{a}", "x"), "none");
}
