use file_server::decimal::{parse_u32, to_decimal, IntErrorKind};
use file_server::text::{chars_of, is_whitespace, word_spans};

fn std_kind(s: &str) -> Result<u32, IntErrorKind> {
    match s.parse::<u32>() {
        Ok(v) => Ok(v),
        Err(e) => Err(match e.kind() {
            std::num::IntErrorKind::Empty => IntErrorKind::Empty,
            std::num::IntErrorKind::InvalidDigit => IntErrorKind::InvalidDigit,
            std::num::IntErrorKind::PosOverflow => IntErrorKind::PosOverflow,
            other => panic!("unexpected kind {:?}", other),
        }),
    }
}

#[test]
fn parse_u32_agrees_with_std() {
    let cases = [
        "", "+", "-", "0", "00", "42", "+7", "-1", "-0", "4294967295", "4294967296",
        "99999999999a", "12a", " 1", "1 ", "\u{663}", "+-1", "++1", "0004294967295",
        "18446744073709551616", "1\n",
    ];
    for c in cases.iter() {
        assert_eq!(parse_u32(c), std_kind(c), "input {:?}", c);
    }
}

#[test]
fn parse_u32_values() {
    assert_eq!(parse_u32("42"), Ok(42));
    assert_eq!(parse_u32("+42"), Ok(42));
    assert_eq!(parse_u32("4294967295"), Ok(u32::MAX));
    assert_eq!(parse_u32("4294967296"), Err(IntErrorKind::PosOverflow));
    assert_eq!(parse_u32(""), Err(IntErrorKind::Empty));
    assert_eq!(parse_u32("-"), Err(IntErrorKind::InvalidDigit));
    assert_eq!(parse_u32("-5"), Err(IntErrorKind::InvalidDigit));
    // the first bad position decides: an overflow before a bad digit
    assert_eq!(parse_u32("99999999999a"), Err(IntErrorKind::PosOverflow));
    assert_eq!(parse_u32("9a9999999999"), Err(IntErrorKind::InvalidDigit));
}

#[test]
fn error_texts_agree_with_std() {
    let empty = "".parse::<u32>().unwrap_err();
    let invalid = "x".parse::<u32>().unwrap_err();
    let overflow = "4294967296".parse::<u32>().unwrap_err();
    assert_eq!(IntErrorKind::Empty.description(), empty.to_string());
    assert_eq!(IntErrorKind::InvalidDigit.description(), invalid.to_string());
    assert_eq!(IntErrorKind::PosOverflow.description(), overflow.to_string());
    assert_eq!(IntErrorKind::Empty.description(), "cannot parse integer from empty string");
    assert_eq!(IntErrorKind::InvalidDigit.description(), "invalid digit found in string");
    assert_eq!(IntErrorKind::PosOverflow.description(), "number too large to fit in target type");
}

#[test]
fn to_decimal_agrees_with_to_string() {
    for n in [0u32, 7, 9, 10, 99, 100, 12345, 4294967295].iter() {
        assert_eq!(to_decimal(*n), n.to_string());
    }
}

#[test]
fn decimal_round_trip() {
    for n in [0u32, 1, 10, 255, 65536, 4294967295, 1000000007].iter() {
        assert_eq!(parse_u32(&to_decimal(*n)), Ok(*n));
    }
}

#[test]
fn whitespace_agrees_with_std() {
    for code in 0u32..0x3100 {
        if let Some(c) = char::from_u32(code) {
            assert_eq!(is_whitespace(c), c.is_whitespace(), "char {:#x}", code);
        }
    }
    for c in ['\u{feff}', '\u{10ffff}', 'a', '\u{3000}'].iter() {
        assert_eq!(is_whitespace(*c), c.is_whitespace());
    }
}

#[test]
fn chars_of_keeps_all_characters() {
    let s = "a\u{e9} \u{1f600}z";
    assert_eq!(chars_of(s), s.chars().collect::<Vec<char>>());
    assert!(chars_of("").is_empty());
}

#[test]
fn word_spans_agree_with_split_whitespace() {
    let cases = ["", "   ", "a", " a  bb\tccc\u{a0}d ", "x\ny", "3: wlp3s0    inet 1.2.3.4/24 brd"];
    for s in cases.iter() {
        let v = chars_of(s);
        let spans = word_spans(&v, 0, v.len());
        let got: Vec<String> = spans.iter().map(|(a, b)| v[*a..*b].iter().collect()).collect();
        let want: Vec<String> = s.split_whitespace().map(String::from).collect();
        assert_eq!(got, want, "input {:?}", s);
    }
}
