use wallpad_bridge::text::{
    between, boolean, decimal, has_prefix, has_suffix, is_word, parse_bool, parse_bounded,
    parse_saturating_byte, push_decimal, push_decimal_two, same_bytes, text, to_lower,
};
use wallpad_bridge::utils::{append_bytes, copy_range};

#[test]
fn unsigned_numbers_are_read_like_the_standard_library_reads_them() {
    for word in ["0", "7", "42", "+42", "007", "255", "256", "18446744073709551615", "", "+",
        "-1", "4 2", " 42", "42 ", "0x10", "1e3", "12a", "++1", "18446744073709551616",
        "99999999999999999999999999"]
    {
        assert_eq!(parse_bounded(word.as_bytes(), u64::MAX), word.parse::<u64>().ok(), "{}", word);
        assert_eq!(
            parse_bounded(word.as_bytes(), 255),
            word.parse::<u8>().ok().map(u64::from),
            "{}",
            word
        );
        assert_eq!(
            parse_bounded(word.as_bytes(), 0xFFFF_FFFF),
            word.parse::<u32>().ok().map(u64::from),
            "{}",
            word
        );
    }
}

#[test]
fn a_number_above_the_bound_is_none() {
    assert_eq!(parse_bounded(b"100", 100), Some(100));
    assert_eq!(parse_bounded(b"101", 100), None);
    assert_eq!(parse_bounded(b"0", 0), Some(0));
    assert_eq!(parse_bounded(b"1", 0), None);
    assert_eq!(parse_bounded(b"0000", 0), Some(0));
}

#[test]
fn whole_numbers_are_brought_into_the_range_of_a_byte() {
    assert_eq!(parse_saturating_byte(b"24"), Some(24));
    assert_eq!(parse_saturating_byte(b"+24"), Some(24));
    assert_eq!(parse_saturating_byte(b"-24"), Some(0));
    assert_eq!(parse_saturating_byte(b"-0"), Some(0));
    assert_eq!(parse_saturating_byte(b"255"), Some(255));
    assert_eq!(parse_saturating_byte(b"256"), Some(255));
    assert_eq!(parse_saturating_byte(b"0000300"), Some(255));
    assert_eq!(parse_saturating_byte(b"123456789012345678901234567890"), Some(255));
    assert_eq!(parse_saturating_byte(b""), None);
    assert_eq!(parse_saturating_byte(b"-"), None);
    assert_eq!(parse_saturating_byte(b"+"), None);
    assert_eq!(parse_saturating_byte(b"+-1"), None);
    assert_eq!(parse_saturating_byte(b"2.5"), None);
    assert_eq!(parse_saturating_byte(b"abc"), None);
}

#[test]
fn booleans_are_read_like_the_standard_library_reads_them() {
    for word in ["true", "false", "True", "TRUE", "1", "0", "", "yes", " true", "truee"] {
        assert_eq!(parse_bool(word.as_bytes()), word.parse::<bool>().ok(), "{}", word);
    }
}

#[test]
fn numbers_are_written_like_the_standard_library_writes_them() {
    for n in [0u64, 1, 9, 10, 11, 99, 100, 123, 255, 256, 1000, 65535, 4294967295, u64::MAX] {
        assert_eq!(decimal(n), n.to_string().into_bytes());
        let mut appended = b"x=".to_vec();
        push_decimal(&mut appended, n);
        assert_eq!(appended, format!("x={}", n).into_bytes());
    }
}

#[test]
fn numbers_are_padded_to_two_digits() {
    for n in [0u64, 1, 2, 9, 10, 11, 99, 100, 255] {
        let mut v = Vec::new();
        push_decimal_two(&mut v, n);
        assert_eq!(v, format!("{:0>2}", n).into_bytes());
    }
}

#[test]
fn booleans_are_written_like_the_standard_library_writes_them() {
    assert_eq!(boolean(true), true.to_string().into_bytes());
    assert_eq!(boolean(false), false.to_string().into_bytes());
}

#[test]
fn text_gives_the_bytes_of_a_string() {
    assert_eq!(text("heating/"), b"heating/".to_vec());
    assert_eq!(text(""), Vec::<u8>::new());
}

#[test]
fn prefixes_and_suffixes() {
    assert!(has_prefix(b"heating/2/temp/set", b"heating/"));
    assert!(has_prefix(b"heating/", b"heating/"));
    assert!(has_prefix(b"abc", b""));
    assert!(!has_prefix(b"heating", b"heating/"));
    assert!(!has_prefix(b"Heating/2", b"heating/"));
    assert!(has_suffix(b"heating/2/temp/set", b"/temp/set"));
    assert!(has_suffix(b"/set", b"/set"));
    assert!(has_suffix(b"abc", b""));
    assert!(!has_suffix(b"set", b"/set"));
    assert!(!has_suffix(b"heating/2/temp/set ", b"/set"));
}

#[test]
fn the_middle_of_a_topic() {
    assert_eq!(between(b"heating/12/temp/set", b"heating/", b"/temp/set"), Some(&b"12"[..]));
    assert_eq!(between(b"heating//temp/set", b"heating/", b"/temp/set"), Some(&b""[..]));
    assert_eq!(between(b"heating/temp/set", b"heating/", b"/temp/set"), None);
    assert_eq!(between(b"ventilator/set", b"ventilator/", b"/set"), None);
    assert_eq!(between(b"light/0/01/set", b"light/", b"/set"), Some(&b"0/01"[..]));
    assert_eq!(between(b"light/0/01/get", b"light/", b"/set"), None);
    assert_eq!(between(b"night/0/01/set", b"light/", b"/set"), None);
}

#[test]
fn words_are_compared_without_regard_to_case() {
    assert!(is_word(b"OFF", b"off"));
    assert!(is_word(b"PassThrough", b"passthrough"));
    assert!(is_word(b"", b""));
    assert!(!is_word(b"of", b"off"));
    assert!(!is_word(b"off", b"OFF"));
    assert!(!is_word(b"o\xC6\x92f", b"off"));
    assert_eq!(to_lower(b'A'), b'a');
    assert_eq!(to_lower(b'Z'), b'z');
    assert_eq!(to_lower(b'a'), b'a');
    assert_eq!(to_lower(b'@'), b'@');
    assert_eq!(to_lower(b'['), b'[');
    assert_eq!(to_lower(0xC9), 0xC9);
}

#[test]
fn bytes_are_compared_copied_and_appended() {
    assert!(same_bytes(b"abc", b"abc"));
    assert!(same_bytes(b"", b""));
    assert!(!same_bytes(b"abc", b"abd"));
    assert!(!same_bytes(b"abc", b"ab"));
    assert_eq!(copy_range(b"abcdef", 2, 4), b"cd".to_vec());
    assert_eq!(copy_range(b"abcdef", 3, 3), Vec::<u8>::new());
    assert_eq!(copy_range(b"abcdef", 0, 6), b"abcdef".to_vec());
    let mut v = b"ab".to_vec();
    append_bytes(&mut v, b"cd");
    append_bytes(&mut v, b"");
    assert_eq!(v, b"abcd".to_vec());
}
