use playbook::text::{
    chars_of, decimal, find_char_in, find_pair_in, is_space_char, read_bound, read_small_integer,
    signed_decimal, trimmed, Bound,
};

fn chars(s: &str) -> Vec<char> {
    s.chars().collect()
}

#[test]
fn chars_of_gives_the_characters() {
    assert_eq!(chars_of("aé☃"), vec!['a', 'é', '☃']);
    assert_eq!(chars_of(""), Vec::<char>::new());
}

#[test]
fn pairs_are_found_from_a_position_on() {
    let s = chars("a{{b}}c{{");
    assert_eq!(find_pair_in(&s, '{', '{', 0), Some(1));
    assert_eq!(find_pair_in(&s, '{', '{', 1), Some(1));
    assert_eq!(find_pair_in(&s, '{', '{', 2), Some(7));
    assert_eq!(find_pair_in(&s, '{', '{', 8), None);
    assert_eq!(find_pair_in(&s, '{', '{', 100), None);
    assert_eq!(find_pair_in(&s, '}', '}', 0), Some(4));
    assert_eq!(find_pair_in(&chars("{"), '{', '{', 0), None);
    assert_eq!(find_pair_in(&chars("{{{"), '{', '{', 1), Some(1));
}

#[test]
fn characters_are_found_from_a_position_on() {
    let s = chars("a[b]c[");
    assert_eq!(find_char_in(&s, '[', 0), Some(1));
    assert_eq!(find_char_in(&s, '[', 2), Some(5));
    assert_eq!(find_char_in(&s, ']', 4), None);
    assert_eq!(find_char_in(&s, 'x', 0), None);
}

#[test]
fn white_space_is_what_unicode_says() {
    for c in [' ', '\t', '\n', '\r', '\u{0B}', '\u{0C}', '\u{85}', '\u{A0}', '\u{1680}', '\u{2000}', '\u{200A}', '\u{2028}', '\u{2029}', '\u{202F}', '\u{205F}', '\u{3000}'] {
        assert!(is_space_char(c));
    }
    for c in ['a', '0', '_', '\u{200B}', '\u{FEFF}', '\u{180E}'] {
        assert!(!is_space_char(c));
    }
    let mut n: u32 = 0;
    while n < 0x3100 {
        if let Some(c) = char::from_u32(n) {
            assert_eq!(is_space_char(c), c.is_whitespace());
        }
        n += 1;
    }
}

#[test]
fn trimming_cuts_both_ends_only() {
    assert_eq!(trimmed(&chars("  a b \t")), chars("a b"));
    assert_eq!(trimmed(&chars("ab")), chars("ab"));
    assert_eq!(trimmed(&chars("   ")), chars(""));
    assert_eq!(trimmed(&chars("")), chars(""));
    assert_eq!(trimmed(&chars("\u{3000}x\u{A0}")), chars("x"));
}

#[test]
fn bounds_are_read_as_decimal_numbers() {
    assert_eq!(read_bound(&chars("")), Bound::Absent);
    assert_eq!(read_bound(&chars("0")), Bound::At(0));
    assert_eq!(read_bound(&chars("007")), Bound::At(7));
    assert_eq!(read_bound(&chars("1234567890")), Bound::At(1234567890));
    assert_eq!(read_bound(&chars(&usize::MAX.to_string())), Bound::At(usize::MAX));
    assert_eq!(read_bound(&chars(&format!("{}0", usize::MAX))), Bound::Beyond);
    assert_eq!(read_bound(&chars("340282366920938463463374607431768211456")), Bound::Beyond);
    assert_eq!(read_bound(&chars("+1")), Bound::Malformed);
    assert_eq!(read_bound(&chars("-1")), Bound::Malformed);
    assert_eq!(read_bound(&chars("1a")), Bound::Malformed);
    assert_eq!(read_bound(&chars(" 1")), Bound::Malformed);
    assert_eq!(read_bound(&chars("١")), Bound::Malformed);
}

#[test]
fn numbers_are_written_in_decimal() {
    assert_eq!(decimal(0), "0");
    assert_eq!(decimal(9), "9");
    assert_eq!(decimal(10), "10");
    assert_eq!(decimal(1234567890), "1234567890");
    assert_eq!(decimal(u64::MAX), "18446744073709551615");
    assert_eq!(signed_decimal(0), "0");
    assert_eq!(signed_decimal(137), "137");
    assert_eq!(signed_decimal(-1), "-1");
    assert_eq!(signed_decimal(i64::MIN), "-9223372036854775808");
    assert_eq!(signed_decimal(i64::MAX), "9223372036854775807");
}

#[test]
fn small_integers_are_read_with_their_sign() {
    assert_eq!(read_small_integer(&chars("0")), Some(0));
    assert_eq!(read_small_integer(&chars("-0")), Some(0));
    assert_eq!(read_small_integer(&chars("17")), Some(17));
    assert_eq!(read_small_integer(&chars("-17")), Some(-17));
    assert_eq!(read_small_integer(&chars("2147483647")), Some(i32::MAX));
    assert_eq!(read_small_integer(&chars("-2147483647")), Some(-i32::MAX));
    assert_eq!(read_small_integer(&chars("2147483648")), None);
    assert_eq!(read_small_integer(&chars("-2147483648")), None);
    assert_eq!(read_small_integer(&chars("")), None);
    assert_eq!(read_small_integer(&chars("-")), None);
    assert_eq!(read_small_integer(&chars("+1")), None);
    assert_eq!(read_small_integer(&chars("1.0")), None);
    assert_eq!(read_small_integer(&chars("--1")), None);
}
