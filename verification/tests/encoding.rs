use file_center_download::encoding::{content_disposition_value, encode_component};

#[test]
fn encodes_unsafe_header_characters() {
    // quote, space, angle brackets, backtick, hash, question mark, braces
    let name = "a\"b <c>`#?{}".as_bytes();
    let encoded = encode_component(name);
    assert_eq!(encoded, b"a%22b%20%3Cc%3E%60%23%3F%7B%7D".to_vec());
}

#[test]
fn encodes_control_and_non_ascii_bytes() {
    let name: Vec<u8> = vec![0x00, 0x1F, 0x7F, 0xFF];
    let encoded = encode_component(&name);
    assert_eq!(encoded, b"%00%1F%7F%FF".to_vec());
}

#[test]
fn keeps_unreserved_characters() {
    let name = "AZaz09-._~".as_bytes();
    let encoded = encode_component(name);
    assert_eq!(encoded, b"AZaz09-._~".to_vec());
}

#[test]
fn round_trips_through_an_independent_decoder() {
    let name = "image(\u{8c93}) \"quoted\"+end.jpg";
    let encoded = encode_component(name.as_bytes());
    let encoded_text = String::from_utf8(encoded).unwrap();
    let decoded = url_escape::decode(&encoded_text);
    assert_eq!(decoded.as_ref(), name);
}

#[test]
fn empty_name_gives_plain_attachment_value() {
    let value = content_disposition_value(&[]);
    assert_eq!(value, b"attachment".to_vec());
}

#[test]
fn named_file_gives_extended_parameter_value() {
    let value = content_disposition_value("r\u{e9}sum\u{e9}.pdf".as_bytes());
    assert_eq!(value, b"attachment; filename*=UTF-8''r%C3%A9sum%C3%A9.pdf".to_vec());
}
