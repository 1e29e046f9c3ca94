use image_resize::text::{
    chars_equal, parse_u32, parse_u8, push_decimal, str_equals, string_from_chars, to_chars,
};

fn chars(s: &str) -> Vec<char> {
    s.chars().collect()
}

#[test]
fn to_chars_keeps_every_character() {
    assert_eq!(to_chars("a/b.c"), vec!['a', '/', 'b', '.', 'c']);
    assert_eq!(to_chars(""), Vec::<char>::new());
    assert_eq!(to_chars("é漢"), vec!['é', '漢']);
}

#[test]
fn string_comparison() {
    assert!(str_equals("png", "png"));
    assert!(!str_equals("png", "pn"));
    assert!(!str_equals("png", "pnG"));
    assert!(str_equals("", ""));
    assert!(chars_equal(&chars("ab"), &chars("ab")));
    assert!(!chars_equal(&chars("ab"), &chars("ba")));
}

#[test]
fn parses_plain_numbers() {
    assert_eq!(parse_u32(&chars("0")), Some(0));
    assert_eq!(parse_u32(&chars("630")), Some(630));
    assert_eq!(parse_u32(&chars("007")), Some(7));
    assert_eq!(parse_u32(&chars("4294967295")), Some(u32::MAX));
}

#[test]
fn accepts_one_leading_plus() {
    assert_eq!(parse_u32(&chars("+5")), Some(5));
    assert_eq!(parse_u32(&chars("++5")), None);
    assert_eq!(parse_u32(&chars("+")), None);
}

#[test]
fn rejects_what_is_not_a_number() {
    assert_eq!(parse_u32(&chars("")), None);
    assert_eq!(parse_u32(&chars("-1")), None);
    assert_eq!(parse_u32(&chars("-0")), None);
    assert_eq!(parse_u32(&chars(" 5")), None);
    assert_eq!(parse_u32(&chars("5 ")), None);
    assert_eq!(parse_u32(&chars("5px")), None);
    assert_eq!(parse_u32(&chars("1.5")), None);
    assert_eq!(parse_u32(&chars("٣")), None);
}

#[test]
fn rejects_numbers_out_of_range() {
    assert_eq!(parse_u32(&chars("4294967296")), None);
    assert_eq!(parse_u32(&chars("99999999999999999999999999")), None);
    assert_eq!(parse_u8(&chars("255")), Some(255));
    assert_eq!(parse_u8(&chars("256")), None);
    assert_eq!(parse_u8(&chars("0000000000000000000012")), Some(12));
}

#[test]
fn parsing_agrees_with_the_standard_library() {
    let samples = [
        "", "0", "1", "+1", "-1", "+", "-", "12a", "a12", "00", "+007", "4294967295", "4294967296",
        "42949672950", "255", "256", "+255", "1e3", "0x10", " 1", "1_000", "①",
    ];
    for s in samples {
        assert_eq!(parse_u32(&chars(s)), s.parse::<u32>().ok());
        assert_eq!(parse_u8(&chars(s)), s.parse::<u8>().ok());
    }
    for n in 0u32..2000 {
        let s = n.to_string();
        assert_eq!(parse_u32(&chars(&s)), Some(n));
        assert_eq!(parse_u8(&chars(&s)), s.parse::<u8>().ok());
    }
}

#[test]
fn writes_numbers_in_decimal() {
    let numbers = [0u32, 1, 9, 10, 11, 99, 100, 410, 630, 4100, 65535, 4294967295];
    for n in numbers {
        let mut out = vec!['x'];
        push_decimal(&mut out, n);
        let text: String = out.into_iter().collect();
        assert_eq!(text, format!("x{}", n));
    }
}

#[test]
fn string_from_its_characters() {
    assert_eq!(string_from_chars(&['a', '/', 'b']), "a/b");
    assert_eq!(string_from_chars(&[]), "");
    assert_eq!(string_from_chars(&['é', '漢', '-']), "é漢-");
    for s in ["", "x", "photo.jpg", "a b\tc", "ｆｕｌｌ"] {
        assert_eq!(string_from_chars(&to_chars(s)), s);
    }
}
