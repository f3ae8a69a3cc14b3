use aerodb::ids::{
    hex_digit_str, push_hex, push_hex_upper, push_uuid_groups, uuid_to_simple_string,
    uuid_to_string,
};
use aerodb::text::{
    char_count, chars_of, code_point, contains_text, decimal_string, digit_str, ends_with,
    find_char, insert_text, join_path, owned, pad_with_zeros, parse_number, parse_u64,
    position_of_text, push_decimal, push_signed_decimal, remove_text, same_text, slice_chars,
    split_chars, starts_with, text_less_or_equal,
};

#[test]
fn numbers_are_written_in_decimal() {
    assert_eq!(decimal_string(0), "0");
    assert_eq!(decimal_string(9), "9");
    assert_eq!(decimal_string(10), "10");
    assert_eq!(decimal_string(u64::MAX), "18446744073709551615");
    let mut out = String::from("n=");
    push_decimal(&mut out, 1234567890);
    assert_eq!(out, "n=1234567890");
    let mut signed = String::new();
    push_signed_decimal(&mut signed, -42);
    push_signed_decimal(&mut signed, 7);
    assert_eq!(signed, "-427");
    let mut lowest = String::new();
    push_signed_decimal(&mut lowest, i64::MIN);
    assert_eq!(lowest, "-9223372036854775808");
    for d in 0..10u8 {
        assert_eq!(digit_str(d), d.to_string());
    }
    assert_eq!(pad_with_zeros(7, 3), "007");
    assert_eq!(pad_with_zeros(1234, 3), "1234");
    assert_eq!(pad_with_zeros(0, 0), "0");
    assert_eq!(pad_with_zeros(0, 5), "00000");
}

#[test]
fn numbers_are_read_as_the_integer_types_read_them() {
    for text in ["0", "7", "+7", "007", "18446744073709551615", "18446744073709551616", "", "+",
        "-1", "1_000", " 1", "1 ", "٣", "ff", "+-1", "++1"]
    {
        assert_eq!(parse_u64(text), text.parse::<u64>().ok(), "for {:?}", text);
    }
    for text in ["0", "ff", "FF", "+1f", "ffffffff", "100000000", "fg", "", "0x10", "-f"] {
        assert_eq!(
            parse_number(text, 16, u32::MAX as u64),
            u32::from_str_radix(text, 16).ok().map(|v| v as u64),
            "for {:?}",
            text
        );
    }
    assert_eq!(parse_number("256", 10, 255), None);
    assert_eq!(parse_number("255", 10, 255), Some(255));
}

#[test]
fn texts_are_compared_and_searched_by_characters() {
    assert!(same_text("abc", "abc"));
    assert!(!same_text("abc", "abd"));
    assert_eq!(owned("héllo"), "héllo");
    assert_eq!(chars_of("hé"), vec!['h', 'é']);
    assert_eq!(char_count("héllo"), 5);
    assert_eq!(code_point('A'), 65);
    assert_eq!(code_point('é'), 0xE9);

    let pairs = [("", ""), ("", "a"), ("a", ""), ("a", "b"), ("b", "a"), ("ab", "abc"),
        ("abc", "ab"), ("abc", "abd"), ("é", "z"), ("Z", "a"), ("same", "same")];
    for (a, b) in pairs {
        assert_eq!(text_less_or_equal(a, b), a <= b, "for {:?} and {:?}", a, b);
    }

    for (s, p) in [("hello", "he"), ("hello", "hello"), ("hello", ""), ("he", "hello"),
        ("hello", "lo"), ("", ""), ("héllo", "hé")]
    {
        assert_eq!(starts_with(s, p), s.starts_with(p), "for {:?} and {:?}", s, p);
        assert_eq!(ends_with(s, p), s.ends_with(p), "for {:?} and {:?}", s, p);
        assert_eq!(contains_text(s, p), s.contains(p), "for {:?} and {:?}", s, p);
    }
    assert!(contains_text("a--b", "--"));
    assert!(!contains_text("a-b-c", "--"));
    assert!(contains_text("xxabc", "abc"));
    assert!(!contains_text("xxab", "abc"));

    assert_eq!(find_char("a.b.c", '.'), Some(1));
    assert_eq!(find_char("abc", '.'), None);
    assert_eq!(find_char("éé.", '.'), Some(2));
    assert_eq!(slice_chars("héllo", 1, 3), "él");
    assert_eq!(slice_chars("abc", 3, 3), "");
}

#[test]
fn texts_are_split_and_joined() {
    assert_eq!(split_chars("a,b,,c", ','), vec!["a", "b", "", "c"]);
    assert_eq!(split_chars("", ','), vec![""]);
    assert_eq!(split_chars(",", ','), vec!["", ""]);
    assert_eq!(split_chars("abc", ','), vec!["abc"]);
    assert_eq!(join_path("/data", "wal"), "/data/wal");
    assert_eq!(join_path("/data/", "wal"), "/data/wal");
    assert_eq!(join_path("", "wal"), "wal");
    assert_eq!(join_path("/", "wal"), "/wal");
}

#[test]
fn lists_of_texts_work_as_sets() {
    let mut names: Vec<String> = Vec::new();
    insert_text(&mut names, "users".to_string());
    insert_text(&mut names, "posts".to_string());
    assert_eq!(position_of_text(&names, "posts"), Some(1));
    assert_eq!(position_of_text(&names, "none"), None);
    remove_text(&mut names, "users");
    assert_eq!(names, vec!["posts"]);
    remove_text(&mut names, "users");
    assert_eq!(names, vec!["posts"]);
}

#[test]
fn identifiers_are_written_as_uuids() {
    let id: u128 = 0x12345678_9abc_def0_1234_56789abcdef0;
    assert_eq!(uuid_to_string(id), "12345678-9abc-def0-1234-56789abcdef0");
    assert_eq!(uuid_to_simple_string(id), "123456789abcdef0123456789abcdef0");
    assert_eq!(uuid_to_string(0), "00000000-0000-0000-0000-000000000000");
    assert_eq!(uuid_to_string(u128::MAX), "ffffffff-ffff-ffff-ffff-ffffffffffff");
    for sample in [0u128, 1, id, u128::MAX, 0xdead_beef << 64] {
        assert_eq!(uuid_to_string(sample), uuid::Uuid::from_u128(sample).to_string());
        assert_eq!(
            uuid_to_simple_string(sample),
            uuid::Uuid::from_u128(sample).simple().to_string()
        );
    }
    let mut out = String::from("tenant_");
    push_uuid_groups(&mut out, id, "_");
    assert_eq!(out, "tenant_12345678_9abc_def0_1234_56789abcdef0");
}

#[test]
fn hexadecimal_digits() {
    let mut lower = String::new();
    push_hex(&mut lower, 0xABC, 8);
    assert_eq!(lower, "00000abc");
    let mut upper = String::new();
    push_hex_upper(&mut upper, 0xABC, 8);
    assert_eq!(upper, "00000ABC");
    let mut cut = String::new();
    push_hex(&mut cut, 0x12345, 2);
    assert_eq!(cut, "45");
    let mut none = String::new();
    push_hex(&mut none, 0x12345, 0);
    assert_eq!(none, "");
    for d in 0..16u8 {
        assert_eq!(hex_digit_str(d), format!("{:x}", d));
    }
}
