use gptcli::decode::{decode_dalle_body, decode_vision_body, extract_payload, ChatStreamDecoder};
use gptcli::errors::GptError;
use gptcli::framing::LineFramer;
use gptcli::utils::is_success_status;

#[test]
fn test_success_status_boundaries() {
    assert!(!is_success_status(199));
    assert!(is_success_status(200));
    assert!(is_success_status(299));
    assert!(!is_success_status(300));
    assert!(!is_success_status(404));
    assert!(!is_success_status(500));
}

#[test]
fn test_framer_carries_partial_line_over() {
    let mut framer = LineFramer::new();
    let first = framer.feed(b"ab\ncd");
    assert_eq!(first, vec![b"ab".to_vec()]);
    let second = framer.feed(b"\n");
    assert_eq!(second, vec![b"cd".to_vec()]);
}

#[test]
fn test_framer_empty_lines() {
    let mut framer = LineFramer::new();
    let lines = framer.feed(b"\n\nx\n");
    assert_eq!(lines, vec![b"".to_vec(), b"".to_vec(), b"x".to_vec()]);
}

#[test]
fn test_extract_payload_strips_marker_and_whitespace() {
    assert_eq!(extract_payload(b"data: [DONE] \r"), b"[DONE]".to_vec());
    assert_eq!(extract_payload(b"  plain \t"), b"plain".to_vec());
    assert_eq!(extract_payload(b"data: "), b"".to_vec());
}

#[test]
fn test_extract_payload_strips_marker_once_only() {
    assert_eq!(extract_payload(b"data: data: x"), b"data: x".to_vec());
}

#[test]
fn test_stream_decode_single_chunk() {
    let mut decoder = ChatStreamDecoder::new();
    let texts = decoder.feed(b"data: {\"choices\":[{\"delta\":{\"content\":\"Hello\"}}]}\n");
    assert_eq!(texts, vec!["Hello".to_string()]);
}

#[test]
fn test_stream_decode_identical_under_chunk_splitting() {
    let bytes: &[u8] = b"data: {\"choices\":[{\"delta\":{\"content\":\"Hello\"}}]}\n";

    let mut whole_decoder = ChatStreamDecoder::new();
    let whole = whole_decoder.feed(bytes);
    assert_eq!(whole, vec!["Hello".to_string()]);

    for split in 0..=bytes.len() {
        let mut decoder = ChatStreamDecoder::new();
        let mut out = decoder.feed(&bytes[..split]);
        out.extend(decoder.feed(&bytes[split..]));
        assert_eq!(out, whole, "differs when split at byte {}", split);
    }
}

#[test]
fn test_stream_decode_skips_non_json_lines() {
    let mut decoder = ChatStreamDecoder::new();
    let mut out = decoder.feed(b"data: [DONE]\n");
    out.extend(decoder.feed(b"data: {\"choices\":[{\"delta\":{\"content\":\"X\"}}]}\n"));
    assert_eq!(out, vec!["X".to_string()]);
}

#[test]
fn test_stream_decode_skips_blank_keepalive_lines() {
    let mut decoder = ChatStreamDecoder::new();
    let out = decoder.feed(b"\n\ndata: {\"choices\":[{\"delta\":{\"content\":\"ok\"}}]}\n\n");
    assert_eq!(out, vec!["ok".to_string()]);
}

#[test]
fn test_stream_decode_emits_choices_in_order() {
    let mut decoder = ChatStreamDecoder::new();
    let out = decoder.feed(
        b"data: {\"choices\":[{\"delta\":{\"content\":\"a\"}},{\"delta\":{\"content\":null}},{\"delta\":{\"content\":\"b\"}}]}\n",
    );
    assert_eq!(out, vec!["a".to_string(), "b".to_string()]);
}

#[test]
fn test_stream_decode_holds_unterminated_line_back() {
    let mut decoder = ChatStreamDecoder::new();
    let out = decoder.feed(b"data: {\"choices\":[{\"delta\":{\"content\":\"Hi\"}}]}");
    assert_eq!(out, Vec::<String>::new());
}

#[test]
fn test_vision_decode_empty_choices_gives_placeholder() {
    let result = decode_vision_body(b"{\"choices\":[]}");
    assert_eq!(result.unwrap(), "No content in response");
}

#[test]
fn test_vision_decode_returns_first_choice_text() {
    let body = b"{\"choices\":[{\"message\":{\"content\":\"This is a test response\"}},{\"message\":{\"content\":\"second\"}}]}";
    let result = decode_vision_body(body);
    assert_eq!(result.unwrap(), "This is a test response");
}

#[test]
fn test_vision_decode_rejects_malformed_body() {
    let result = decode_vision_body(b"not json at all");
    match result {
        Err(GptError::Decode) => {}
        _ => panic!("expected a decode error"),
    }
}

#[test]
fn test_dalle_decode_returns_urls_in_order() {
    let result = decode_dalle_body(b"{\"data\":[{\"url\":\"http://a\"},{\"url\":\"http://b\"}]}");
    assert_eq!(result.unwrap(), vec!["http://a".to_string(), "http://b".to_string()]);
}

#[test]
fn test_dalle_decode_rejects_malformed_body() {
    let result = decode_dalle_body(b"{\"data\":\"nope\"}");
    match result {
        Err(GptError::Decode) => {}
        _ => panic!("expected a decode error"),
    }
}

#[test]
fn test_error_messages_name_their_cause() {
    assert_eq!(
        GptError::Config.message(),
        "OPENAI_API_KEY environment variable not found or invalid"
    );
    assert_eq!(
        GptError::Resource { path: "non_existent_file.jpg".to_string() }.message(),
        "Failed to open image file: non_existent_file.jpg"
    );
    assert_eq!(
        GptError::Transport { detail: "timed out".to_string() }.message(),
        "Failed to send request to OpenAI: timed out"
    );
    assert_eq!(
        GptError::Server { status: 500, body: None }.message(),
        "Failed to get a valid response"
    );
    assert_eq!(GptError::Decode.message(), "Failed to decode response body");
    assert_eq!(
        GptError::Output { detail: "closed".to_string() }.message(),
        "Failed to flush stdout: closed"
    );
}
