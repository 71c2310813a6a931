use resourced::parse::{parse_file_to_u64, parse_u64, ParseError};

#[test]
fn parses_the_first_line() {
    assert_eq!(parse_file_to_u64(b"12345\n"), Ok(12345));
    assert_eq!(parse_file_to_u64(b"12345"), Ok(12345));
    assert_eq!(parse_file_to_u64(b"300\n900\n"), Ok(300));
    assert_eq!(parse_file_to_u64(b"7\r\nrest"), Ok(7));
    assert_eq!(parse_file_to_u64(b"007\n"), Ok(7));
    assert_eq!(parse_file_to_u64(b"+42\n"), Ok(42));
    assert_eq!(parse_file_to_u64(b"0"), Ok(0));
}

#[test]
fn empty_content_has_no_line() {
    assert_eq!(parse_file_to_u64(b""), Err(ParseError::NoContent));
}

#[test]
fn rejects_what_is_no_number() {
    assert_eq!(parse_file_to_u64(b"\n"), Err(ParseError::NotANumber));
    assert_eq!(parse_file_to_u64(b"\n12"), Err(ParseError::NotANumber));
    assert_eq!(parse_file_to_u64(b"abc\n"), Err(ParseError::NotANumber));
    assert_eq!(parse_file_to_u64(b" 12\n"), Err(ParseError::NotANumber));
    assert_eq!(parse_file_to_u64(b"12 \n"), Err(ParseError::NotANumber));
    assert_eq!(parse_file_to_u64(b"12\r"), Err(ParseError::NotANumber));
    assert_eq!(parse_file_to_u64(b"-1\n"), Err(ParseError::NotANumber));
    assert_eq!(parse_file_to_u64(b"+\n"), Err(ParseError::NotANumber));
    assert_eq!(parse_file_to_u64(b"1_000\n"), Err(ParseError::NotANumber));
    assert_eq!(parse_file_to_u64(&[0x31, 0xff, 0x0a]), Err(ParseError::NotANumber));
}

#[test]
fn largest_value_and_overflow() {
    assert_eq!(parse_file_to_u64(b"18446744073709551615\n"), Ok(u64::MAX));
    assert_eq!(parse_file_to_u64(b"18446744073709551616\n"), Err(ParseError::NotANumber));
    assert_eq!(parse_file_to_u64(b"99999999999999999999999\n"), Err(ParseError::NotANumber));
    assert_eq!(parse_u64(b"000000000000000000000000000001"), Some(1));
}

#[test]
fn parse_u64_agrees_with_the_standard_library() {
    let samples = [
        "", "0", "1", "+1", "-1", "++1", "+", "12a", "a12", " 1", "1 ", "4294967296",
        "18446744073709551615", "18446744073709551616", "0x10", "1e3", "00", "+00012",
    ];
    for text in samples.iter() {
        assert_eq!(parse_u64(text.as_bytes()), text.parse::<u64>().ok(), "{:?}", text);
    }
}
