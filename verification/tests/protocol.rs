use neutral_ipc::codec::{Header, HEADER_SIZE};
use neutral_ipc::json::status_json_bytes;
use neutral_ipc::protocol::{
    build_response, decode_request, validate_request, ProtocolError, RenderStatus,
    CONTENT_BIN, CONTENT_JSON, CONTENT_PATH, CONTENT_TEXT, CTRL_PARSE_TEMPLATE, CTRL_STATUS_OK,
};

fn sample_header() -> Header {
    Header {
        reserved: 0,
        control: CTRL_PARSE_TEMPLATE,
        content_format_1: CONTENT_JSON,
        content_length_1: 258,
        content_format_2: CONTENT_TEXT,
        content_length_2: 5,
    }
}

#[test]
fn header_decode_fields() {
    let bytes: [u8; 12] = [0, 10, 10, 0, 0, 1, 2, 30, 0, 0, 0, 5];
    let h = Header::from_bytes(&bytes).unwrap();
    assert_eq!(h.reserved, 0);
    assert_eq!(h.control, 10);
    assert_eq!(h.content_format_1, 10);
    assert_eq!(h.content_length_1, 258);
    assert_eq!(h.content_format_2, 30);
    assert_eq!(h.content_length_2, 5);
}

#[test]
fn header_roundtrip_bytes() {
    let bytes: [u8; 12] = [0, 10, 10, 0xde, 0xad, 0xbe, 0xef, 20, 0xff, 0xff, 0xff, 0xff];
    let h = Header::from_bytes(&bytes).unwrap();
    assert_eq!(h.to_bytes(), bytes);
}

#[test]
fn header_roundtrip_value() {
    let h = sample_header();
    let decoded = Header::from_bytes(&h.to_bytes()).unwrap();
    assert_eq!(decoded, h);
}

#[test]
fn header_too_short() {
    assert!(Header::from_bytes(&[]).is_none());
    let eleven = [0u8; 11];
    assert!(Header::from_bytes(&eleven).is_none());
    let twelve = [0u8; 12];
    assert!(Header::from_bytes(&twelve).is_some());
    assert_eq!(HEADER_SIZE, 12);
}

#[test]
fn header_extra_bytes_ignored() {
    let mut bytes = vec![0u8, 10, 10, 0, 0, 0, 2, 30, 0, 0, 0, 0];
    bytes.extend_from_slice(&[1, 2, 3]);
    let h = Header::from_bytes(&bytes).unwrap();
    assert_eq!(h.content_length_1, 2);
    assert_eq!(h.content_length_2, 0);
}

#[test]
fn validate_unsupported_control() {
    let h = Header { control: 99, ..sample_header() };
    assert_eq!(validate_request(&h), Err(ProtocolError::UnsupportedControl));
}

#[test]
fn validate_wrong_first_format() {
    let h = Header { content_format_1: CONTENT_TEXT, ..sample_header() };
    assert_eq!(validate_request(&h), Err(ProtocolError::InvalidContentFormat));
}

#[test]
fn validate_wrong_second_format() {
    let h = Header { content_format_2: CONTENT_BIN, ..sample_header() };
    assert_eq!(validate_request(&h), Err(ProtocolError::InvalidContentFormat));
    let h = Header { content_format_2: CONTENT_JSON, ..sample_header() };
    assert_eq!(validate_request(&h), Err(ProtocolError::InvalidContentFormat));
}

#[test]
fn validate_accepts_text_and_path() {
    assert_eq!(validate_request(&sample_header()), Ok(()));
    let h = Header { content_format_2: CONTENT_PATH, ..sample_header() };
    assert_eq!(validate_request(&h), Ok(()));
}

#[test]
fn decode_request_texts() {
    let schema = "{\"data\": {\"name\": \"world\"}}".as_bytes().to_vec();
    let source = "Hello {:;name:}".as_bytes().to_vec();
    let mut h = sample_header();
    h.content_length_1 = schema.len() as u32;
    h.content_length_2 = source.len() as u32;
    let q = decode_request(&h, schema, source).unwrap();
    assert_eq!(q.schema, "{\"data\": {\"name\": \"world\"}}");
    assert_eq!(q.source, "Hello {:;name:}");
    assert_eq!(q.source_kind, CONTENT_TEXT);
}

#[test]
fn decode_request_multibyte_text() {
    let schema = "{}".as_bytes().to_vec();
    let source = "héllo ∀".as_bytes().to_vec();
    let mut h = sample_header();
    h.content_length_1 = schema.len() as u32;
    h.content_length_2 = source.len() as u32;
    let q = decode_request(&h, schema, source).unwrap();
    assert_eq!(q.source, "héllo ∀");
}

#[test]
fn decode_request_invalid_utf8_first_block() {
    let schema = vec![0xff, 0xfe, 0x80];
    let source = "x".as_bytes().to_vec();
    let mut h = sample_header();
    h.content_length_1 = schema.len() as u32;
    h.content_length_2 = source.len() as u32;
    assert_eq!(
        decode_request(&h, schema, source).map(|_| ()),
        Err(ProtocolError::Utf8DecodeError)
    );
}

#[test]
fn decode_request_invalid_utf8_second_block() {
    let schema = "{}".as_bytes().to_vec();
    let source = vec![b'a', 0xc3, 0x28];
    let mut h = sample_header();
    h.content_length_1 = schema.len() as u32;
    h.content_length_2 = source.len() as u32;
    assert_eq!(
        decode_request(&h, schema, source).map(|_| ()),
        Err(ProtocolError::Utf8DecodeError)
    );
}

#[test]
fn status_json_plain() {
    let body = status_json_bytes(false, "200", "OK", "");
    assert_eq!(
        body,
        b"{\"has_error\":false,\"status_code\":\"200\",\"status_param\":\"\",\"status_text\":\"OK\"}"
            .to_vec()
    );
}

#[test]
fn status_json_escapes() {
    let body = status_json_bytes(true, "404", "not \"found\"\n", "a\\b");
    assert_eq!(
        body,
        b"{\"has_error\":true,\"status_code\":\"404\",\"status_param\":\"a\\\\b\",\"status_text\":\"not \\\"found\\\"\\n\"}"
            .to_vec()
    );
}

#[test]
fn status_json_control_chars() {
    let body = status_json_bytes(false, "\u{01}", "\t", "\u{1f}");
    assert_eq!(
        body,
        b"{\"has_error\":false,\"status_code\":\"\\u0001\",\"status_param\":\"\\u001f\",\"status_text\":\"\\t\"}"
            .to_vec()
    );
}

#[test]
fn status_json_multibyte_unescaped() {
    let body = status_json_bytes(false, "200", "héllo", "");
    assert_eq!(
        body,
        "{\"has_error\":false,\"status_code\":\"200\",\"status_param\":\"\",\"status_text\":\"héllo\"}"
            .as_bytes()
            .to_vec()
    );
}

fn ok_status() -> RenderStatus {
    RenderStatus {
        has_error: false,
        status_code: "200".to_string(),
        status_text: "OK".to_string(),
        status_param: String::new(),
    }
}

#[test]
fn build_response_shape() {
    let resp = build_response(&ok_status(), "Hello, World!").unwrap();
    assert_eq!(resp.header.reserved, 0);
    assert_eq!(resp.header.control, CTRL_STATUS_OK);
    assert_eq!(resp.header.content_format_1, CONTENT_JSON);
    assert_eq!(resp.header.content_format_2, CONTENT_TEXT);
    assert_eq!(resp.header.content_length_1 as usize, resp.body1.len());
    assert_eq!(resp.header.content_length_2 as usize, resp.body2.len());
    assert_eq!(resp.body2, b"Hello, World!".to_vec());
    assert_eq!(
        resp.body1,
        b"{\"has_error\":false,\"status_code\":\"200\",\"status_param\":\"\",\"status_text\":\"OK\"}"
            .to_vec()
    );
}

#[test]
fn build_response_empty_render() {
    let resp = build_response(&ok_status(), "").unwrap();
    assert_eq!(resp.header.content_length_2, 0);
    assert!(resp.body2.is_empty());
}

#[test]
fn wire_bytes_order() {
    let resp = build_response(&ok_status(), "hi").unwrap();
    let wire = resp.wire_bytes();
    let mut expected = resp.header.to_bytes().to_vec();
    expected.extend_from_slice(&resp.body1);
    expected.extend_from_slice(&resp.body2);
    assert_eq!(wire, expected);
    assert_eq!(wire[1], CTRL_STATUS_OK);
    assert_eq!(wire.len(), 12 + resp.body1.len() + resp.body2.len());
}

#[test]
fn happy_path_pipeline() {
    // A well-formed request frame: header, schema block, template block.
    let schema = "{\"data\": {\"name\": \"world\"}}";
    let template = "Hello";
    let mut frame = vec![
        0u8,
        CTRL_PARSE_TEMPLATE,
        CONTENT_JSON,
        0,
        0,
        0,
        schema.len() as u8,
        CONTENT_TEXT,
        0,
        0,
        0,
        template.len() as u8,
    ];
    frame.extend_from_slice(schema.as_bytes());
    frame.extend_from_slice(template.as_bytes());

    let header = Header::from_bytes(&frame[..12]).unwrap();
    assert_eq!(validate_request(&header), Ok(()));
    let block1 = frame[12..12 + schema.len()].to_vec();
    let block2 = frame[12 + schema.len()..].to_vec();
    let q = decode_request(&header, block1, block2).unwrap();
    assert_eq!(q.schema, schema);
    assert_eq!(q.source, template);

    // The render step is the external engine's; its status and output
    // are framed into the response.
    let resp = build_response(&ok_status(), "Hello rendered").unwrap();
    assert_eq!(resp.header.control, CTRL_STATUS_OK);
    let wire = resp.wire_bytes();
    let echoed = Header::from_bytes(&wire[..12]).unwrap();
    assert_eq!(echoed, resp.header);
    assert!(String::from_utf8(resp.body1.clone()).unwrap().contains("\"has_error\":false"));
}

#[test]
fn error_messages() {
    assert_eq!(ProtocolError::HeaderTooShort.message(), "Invalid header format");
    assert_eq!(ProtocolError::UnsupportedControl.message(), "Unsupported control code");
    assert_eq!(ProtocolError::InvalidContentFormat.message(), "Invalid content format");
    assert_eq!(
        ProtocolError::Utf8DecodeError.message(),
        "Failed to parse content as UTF-8"
    );
}
