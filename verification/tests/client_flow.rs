//! Tests of the client facade: configuration checks, the frame reader, and
//! full simulated exchanges against a fake peer's bytes.

use rawdog_client::client::RawdogClient;
use rawdog_client::errors::ConfigFault;
use rawdog_client::errors::RawdogError;
use rawdog_client::frame::FrameReader;
use rawdog_client::models::TcpHeader;
use rawdog_client::models::TcpStatusMessage;
use rawdog_client::sizeblock::encode_size_block;

fn b64(bytes: &[u8]) -> String {
    base64::Engine::encode(&base64::engine::general_purpose::STANDARD, bytes)
}

/// Feeds a simulated peer's full frame through the size block, the frame
/// reader (with bounded chunked reads), and the decoder, like the I/O loop
/// around the library does.
fn run_exchange(
    client: &RawdogClient,
    metadata: &[u8],
    payload: &[u8],
) -> Result<(TcpHeader, String), RawdogError> {
    let size_block = encode_size_block(metadata.len() as u16, payload.len() as u64);
    let (md_len, payload_len) = client.process_size_bytes(&size_block);
    assert_eq!(md_len as usize, metadata.len());
    assert_eq!(payload_len as usize, payload.len());

    let mut stream: Vec<u8> = Vec::new();
    stream.extend_from_slice(metadata);
    stream.extend_from_slice(payload);

    let mut reader = FrameReader::new(md_len, payload_len);
    let mut offset: usize = 0;
    while !reader.done() {
        let want = reader.next_request();
        assert!(want > 0);
        // simulate short reads: hand over at most 7 bytes per read
        let take = want.min(7).min(stream.len() - offset);
        reader.push(&stream[offset..offset + take])?;
        offset += take;
    }
    assert_eq!(offset, stream.len());
    let (md_bytes, payload_bytes) = reader.into_blocks();
    client.handle_response(&md_bytes, &payload_bytes)
}

#[test]
fn end_to_end_success() {
    let client = RawdogClient::default();
    let metadata = b"{\"agentname\":\"x\",\"endpoint\":1,\"addldata\":\"\"}";
    assert_eq!(metadata.len(), 44);
    let payload = b64(b"{\"code\":200,\"message\":\"ok\"}");
    let (header, message) = run_exchange(&client, metadata, payload.as_bytes()).unwrap();
    assert_eq!(header.agentname, "x");
    assert_eq!(header.endpoint, 1);
    assert_eq!(header.addldata, "");
    assert_eq!(message, "ok");
}

#[test]
fn end_to_end_failure() {
    let client = RawdogClient::default();
    let metadata = b"{\"agentname\":\"x\",\"endpoint\":1,\"addldata\":\"\"}";
    let payload = b64(b"{\"code\":400,\"message\":\"bad request\"}");
    let result = run_exchange(&client, metadata, payload.as_bytes());
    assert_eq!(result, Err(RawdogError::Protocol("bad request".to_string())));
}

#[test]
fn empty_blocks_yield_default_success() {
    let client = RawdogClient::default();
    let (header, message) = run_exchange(&client, b"", b"").unwrap();
    assert_eq!(header, TcpHeader::default());
    assert_eq!(message, "");
}

#[test]
fn invalid_port_is_a_config_error() {
    let mut client = RawdogClient::default();
    client.servport = 0;
    assert_eq!(
        client.check_config(),
        Err(RawdogError::Config(ConfigFault::PortOutOfRange))
    );
    client.servport = 65536;
    assert_eq!(
        client.check_config(),
        Err(RawdogError::Config(ConfigFault::PortOutOfRange))
    );
    client.servport = 65535;
    assert_eq!(client.check_config(), Ok(()));
    client.servport = 1;
    assert_eq!(client.check_config(), Ok(()));
}

#[test]
fn blank_address_is_a_config_error() {
    let mut client = RawdogClient::default();
    client.servaddr = "   \t ".to_string();
    assert_eq!(
        client.check_config(),
        Err(RawdogError::Config(ConfigFault::AddressEmpty))
    );
    client.servaddr = "".to_string();
    assert_eq!(
        client.check_config(),
        Err(RawdogError::Config(ConfigFault::AddressEmpty))
    );
    client.servaddr = " example.com ".to_string();
    assert_eq!(client.check_config(), Ok(()));
}

#[test]
fn default_client_values() {
    let client = RawdogClient::default();
    assert_eq!(client.servaddr, "localhost");
    assert_eq!(client.servport, 8080);
    assert_eq!(client.read_timeout, Some(10000));
    assert_eq!(client.send_timeout, Some(10000));
    assert_eq!(client.check_config(), Ok(()));
}

#[test]
fn status_message_helpers() {
    let mut status = TcpStatusMessage::default();
    assert!(!status.is_error());
    assert!(!status.has_message());
    status.code = 399;
    assert!(!status.is_error());
    status.code = 400;
    assert!(status.is_error());
    status.message = "   ".to_string();
    assert!(!status.has_message());
    status.message = "  x  ".to_string();
    assert!(status.has_message());
    status.message = "\u{2003}\u{00a0}".to_string();
    assert!(!status.has_message());
}

#[test]
fn frame_reader_counts_bytes_not_blocks() {
    let mut reader = FrameReader::new(3000, 5);
    assert_eq!(reader.next_request(), 1024);
    reader.push(&[7u8; 1024]).unwrap();
    assert_eq!(reader.next_request(), 1024);
    reader.push(&[7u8; 1000]).unwrap();
    assert_eq!(reader.next_request(), 976);
    reader.push(&[7u8; 976]).unwrap();
    assert_eq!(reader.next_request(), 5);
    reader.push(&[1, 2, 3]).unwrap();
    assert_eq!(reader.next_request(), 2);
    reader.push(&[4, 5]).unwrap();
    assert!(reader.done());
    assert_eq!(reader.next_request(), 0);
    let (md, payload) = reader.into_blocks();
    assert_eq!(md.len(), 3000);
    assert_eq!(payload, vec![1, 2, 3, 4, 5]);
}

#[test]
fn premature_close_is_an_io_error() {
    let mut reader = FrameReader::new(4, 0);
    reader.push(&[1, 2]).unwrap();
    let r = reader.push(&[]);
    assert!(matches!(r, Err(RawdogError::Io(_))));
    // the reader is unchanged and can still finish
    reader.push(&[3, 4]).unwrap();
    assert!(reader.done());
    assert!(reader.push(&[]).is_ok());
}
