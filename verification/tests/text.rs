use mrcp_plugin::error::Error;
use mrcp_plugin::text::{apt_str_to_string, AptStr};

#[test]
fn null_buffer_is_absent() {
    assert_eq!(apt_str_to_string(&AptStr { buf: None }), Ok(None));
}

#[test]
fn zero_length_buffer_is_absent() {
    assert_eq!(apt_str_to_string(&AptStr { buf: Some(Vec::new()) }), Ok(None));
}

#[test]
fn ascii_buffer_is_decoded() {
    let buffer = AptStr { buf: Some(b"en-US".to_vec()) };
    assert_eq!(apt_str_to_string(&buffer), Ok(Some(String::from("en-US"))));
}

#[test]
fn multibyte_buffer_is_decoded() {
    let buffer = AptStr { buf: Some(vec![0xd0, 0x9e, 0xd0, 0xba]) };
    assert_eq!(apt_str_to_string(&buffer), Ok(Some(String::from("Ок"))));
}

#[test]
fn buffer_need_not_end_in_nul() {
    let buffer = AptStr { buf: Some(vec![b'a', 0, b'b']) };
    assert_eq!(apt_str_to_string(&buffer), Ok(Some(String::from("a\0b"))));
}

#[test]
fn invalid_bytes_are_an_error() {
    let buffer = AptStr { buf: Some(vec![0xff, 0xfe]) };
    assert_eq!(apt_str_to_string(&buffer), Err(Error::InvalidText));
}

#[test]
fn truncated_sequence_is_an_error() {
    let buffer = AptStr { buf: Some(vec![b'o', b'k', 0xd0]) };
    assert_eq!(apt_str_to_string(&buffer), Err(Error::InvalidText));
}
