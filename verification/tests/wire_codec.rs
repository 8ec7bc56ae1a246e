//! Tests of the wire codec: size block, block count, JSON metadata
//! encoding and decoding, and the base64 payload path.

use rawdog_client::client::RawdogClient;
use rawdog_client::errors::CodecStage;
use rawdog_client::errors::RawdogError;
use rawdog_client::frame::build_request_frame;
use rawdog_client::jsondec::decode_base64_text;
use rawdog_client::jsondec::decode_metadata;
use rawdog_client::jsondec::decode_status;
use rawdog_client::jsonenc::encode_header_json;
use rawdog_client::models::TcpHeader;
use rawdog_client::models::TcpStatusMessage;
use rawdog_client::sizeblock::blocks_needed;
use rawdog_client::sizeblock::encode_size_block;

fn b64(bytes: &[u8]) -> String {
    base64::Engine::encode(&base64::engine::general_purpose::STANDARD, bytes)
}

#[test]
fn size_block_layout_is_exact() {
    let block = encode_size_block(41, 32);
    assert_eq!(block, vec![0, 41, 0, 0, 0, 0, 0, 0, 0, 32]);
    let block = encode_size_block(0x1234, 0x0102030405060708);
    assert_eq!(block, vec![0x12, 0x34, 1, 2, 3, 4, 5, 6, 7, 8]);
}

#[test]
fn size_block_round_trips() {
    let client = RawdogClient::default();
    for &(md, pl) in &[
        (0u16, 0u64),
        (1, 1),
        (41, 32),
        (65535, u64::MAX),
        (1024, 1025),
        (0x8000, 1 << 63),
    ] {
        let block = encode_size_block(md, pl);
        assert_eq!(block.len(), 10);
        let (md_back, pl_back) = client.process_size_bytes(&block);
        assert_eq!((md_back, pl_back), (md, pl));
    }
}

#[test]
fn blocks_needed_values() {
    assert_eq!(blocks_needed(0), 0);
    assert_eq!(blocks_needed(1), 1);
    assert_eq!(blocks_needed(1024), 1);
    assert_eq!(blocks_needed(1025), 2);
    assert_eq!(blocks_needed(2048), 2);
    assert_eq!(blocks_needed(2049), 3);
}

#[test]
fn header_json_bytes_are_exact() {
    let h = TcpHeader {
        agentname: "a".to_string(),
        endpoint: 1,
        addldata: "".to_string(),
    };
    let json = encode_header_json(&h);
    assert_eq!(json, b"{\"agentname\":\"a\",\"endpoint\":1,\"addldata\":\"\"}".to_vec());
}

#[test]
fn header_json_escapes_and_negative_endpoint() {
    let h = TcpHeader {
        agentname: "q\"uo\\te\n\u{1f}".to_string(),
        endpoint: -42,
        addldata: "tab\there".to_string(),
    };
    let json = encode_header_json(&h);
    assert_eq!(
        json,
        b"{\"agentname\":\"q\\\"uo\\\\te\\n\\u001f\",\"endpoint\":-42,\"addldata\":\"tab\\there\"}"
            .to_vec()
    );
}

#[test]
fn header_json_round_trips() {
    let h = TcpHeader {
        agentname: "a".to_string(),
        endpoint: 1,
        addldata: "".to_string(),
    };
    let json = encode_header_json(&h);
    assert_eq!(decode_metadata(&json), Ok(h));
}

#[test]
fn header_json_round_trips_with_escapes() {
    let h = TcpHeader {
        agentname: "q\"uo\\te\nwith \u{1f} ctrl and \u{00e9}".to_string(),
        endpoint: i64::MIN,
        addldata: " spaced \r\x0c\x08 ".to_string(),
    };
    let json = encode_header_json(&h);
    assert_eq!(decode_metadata(&json), Ok(h));
}

#[test]
fn metadata_accepts_reordered_and_unknown_fields() {
    let json = b"{\"endpoint\":7,\"extra\":[1,{\"x\":2}],\"addldata\":\"d\",\"agentname\":\"n\"}";
    let h = decode_metadata(json).unwrap();
    assert_eq!(h.agentname, "n");
    assert_eq!(h.endpoint, 7);
    assert_eq!(h.addldata, "d");
}

#[test]
fn metadata_rejects_missing_field_and_wrong_type() {
    let missing = b"{\"agentname\":\"n\",\"endpoint\":7}";
    assert_eq!(
        decode_metadata(missing),
        Err(RawdogError::Encoding(CodecStage::MetadataJson))
    );
    let wrong = b"{\"agentname\":\"n\",\"endpoint\":\"7\",\"addldata\":\"\"}";
    assert_eq!(
        decode_metadata(wrong),
        Err(RawdogError::Encoding(CodecStage::MetadataJson))
    );
}

#[test]
fn metadata_error_stages() {
    assert_eq!(
        decode_metadata(&[0xff, 0xfe]),
        Err(RawdogError::Encoding(CodecStage::MetadataUtf8))
    );
    assert_eq!(
        decode_metadata(b"not json"),
        Err(RawdogError::Encoding(CodecStage::MetadataJson))
    );
}

#[test]
fn empty_blocks_decode_to_defaults() {
    assert_eq!(decode_metadata(&[]), Ok(TcpHeader::default()));
    assert_eq!(decode_status(&[]), Ok(TcpStatusMessage::default()));
    let status = decode_status(&[]).unwrap();
    assert_eq!(status.code, 200);
    assert_eq!(status.message, "");
}

#[test]
fn payload_base64_round_trips() {
    let h = TcpHeader::default();
    let frame = build_request_frame(&h, "Hello there").unwrap();
    assert_eq!(frame.payload, b"SGVsbG8gdGhlcmU=".to_vec());
    let text = String::from_utf8(frame.payload.clone()).unwrap();
    let decoded = decode_base64_text(&text).unwrap();
    assert_eq!(decoded, b"Hello there".to_vec());
}

#[test]
fn request_frame_declares_exact_lengths() {
    let h = TcpHeader {
        agentname: "test agent".to_string(),
        endpoint: 1,
        addldata: "".to_string(),
    };
    let frame = build_request_frame(&h, "Hello there").unwrap();
    assert_eq!(frame.metadata, encode_header_json(&h));
    assert_eq!(
        frame.size_block,
        encode_size_block(frame.metadata.len() as u16, frame.payload.len() as u64)
    );
}

#[test]
fn oversized_metadata_is_refused() {
    let h = TcpHeader {
        agentname: "x".repeat(70000),
        endpoint: 0,
        addldata: "".to_string(),
    };
    assert_eq!(
        build_request_frame(&h, "m"),
        Err(RawdogError::Encoding(CodecStage::MetadataOverflow))
    );
}

#[test]
fn status_decode_success() {
    let payload = b64(b"{\"code\":200,\"message\":\"ok\"}");
    let status = decode_status(payload.as_bytes()).unwrap();
    assert_eq!(status.code, 200);
    assert_eq!(status.message, "ok");
}

#[test]
fn status_error_stages() {
    assert_eq!(
        decode_status(&[0xff]),
        Err(RawdogError::Encoding(CodecStage::PayloadUtf8))
    );
    assert_eq!(
        decode_status(b"!not base64!"),
        Err(RawdogError::Encoding(CodecStage::PayloadBase64))
    );
    let bad_inner = b64(&[0xff, 0xfe]);
    assert_eq!(
        decode_status(bad_inner.as_bytes()),
        Err(RawdogError::Encoding(CodecStage::PayloadInnerUtf8))
    );
    let not_json = b64(b"plain text");
    assert_eq!(
        decode_status(not_json.as_bytes()),
        Err(RawdogError::Encoding(CodecStage::PayloadJson))
    );
    let missing_field = b64(b"{\"code\":200}");
    assert_eq!(
        decode_status(missing_field.as_bytes()),
        Err(RawdogError::Encoding(CodecStage::PayloadJson))
    );
}
