use vst_host::text::{
    c_buffer_text, c_str_len, encode_string128, i32_to_decimal, Utf8Error,
};

#[test]
fn c_string_ends_at_first_nul() {
    assert_eq!(c_str_len(b"abc\0def\0"), 3);
    assert_eq!(c_str_len(b"\0abc"), 0);
    assert_eq!(c_str_len(b"abc"), 3);
    assert_eq!(c_str_len(b""), 0);
}

fn std_error(bytes: &[u8]) -> Utf8Error {
    let e = std::str::from_utf8(bytes).unwrap_err();
    Utf8Error { valid_up_to: e.valid_up_to(), error_len: e.error_len() }
}

#[test]
fn c_buffer_text_reads_utf8_before_nul() {
    let mut buf = [0u8; 16];
    buf[..5].copy_from_slice(b"Xfer ");
    assert_eq!(c_buffer_text(&buf), Ok("Xfer ".to_string()));
    assert_eq!(c_buffer_text(b"caf\xc3\xa9\0zz"), Ok("caf\u{e9}".to_string()));
    assert_eq!(c_buffer_text(b"no terminator"), Ok("no terminator".to_string()));
    assert_eq!(c_buffer_text(b"\0"), Ok(String::new()));
}

#[test]
fn c_buffer_text_reports_where_utf8_breaks() {
    assert_eq!(c_buffer_text(b"ab\xffcd\0"), Err(Utf8Error { valid_up_to: 2, error_len: Some(1) }));
    assert_eq!(c_buffer_text(b"ab\xffcd\0"), Err(std_error(b"ab\xffcd")));
    assert_eq!(c_buffer_text(b"\xc3\0"), Err(Utf8Error { valid_up_to: 0, error_len: None }));
    assert_eq!(c_buffer_text(b"\xc3\0"), Err(std_error(b"\xc3")));
    assert_eq!(c_buffer_text(b"caf\xc3\xa9\xe2\x82x\0"), Err(std_error(b"caf\xc3\xa9\xe2\x82x")));
    // bytes after the terminator are not read
    assert_eq!(c_buffer_text(b"ok\0\xff"), Ok("ok".to_string()));
}

#[test]
fn string128_takes_exactly_128_characters() {
    let text = "x".repeat(128);
    let units = encode_string128(&text).unwrap();
    assert_eq!(units, vec!['x' as u16; 128]);
    assert_eq!(encode_string128(&"x".repeat(127)), None);
    assert_eq!(encode_string128(&"x".repeat(129)), None);
    assert_eq!(encode_string128(""), None);
}

#[test]
fn string128_refuses_host_name_length() {
    assert_eq!(encode_string128("Host Application"), None);
}

#[test]
fn string128_truncates_each_character_to_16_bits() {
    let text = format!("a\u{1F600}b{}", "y".repeat(125));
    let units = encode_string128(&text).unwrap();
    assert_eq!(units.len(), 128);
    assert_eq!(&units[..4], &[0x61, 0xF600, 0x62, 0x79]);
}

#[test]
fn decimal_text_of_integers() {
    assert_eq!(i32_to_decimal(0), "0");
    assert_eq!(i32_to_decimal(7), "7");
    assert_eq!(i32_to_decimal(42), "42");
    assert_eq!(i32_to_decimal(-1), "-1");
    assert_eq!(i32_to_decimal(-2_147_467_262), "-2147467262");
    assert_eq!(i32_to_decimal(i32::MIN), i32::MIN.to_string());
    assert_eq!(i32_to_decimal(i32::MAX), i32::MAX.to_string());
}
