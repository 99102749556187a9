use litellm_rust::sse::{sse_frame, SseDecoder};

#[test]
fn decodes_events_across_chunk_boundaries() {
    let mut dec = SseDecoder::new();
    let mut events = dec.push(b"event: message_start\ndata: {\"a\":");
    assert!(events.is_empty()); // incomplete block buffered
    events = dec.push(b"1}\n\nevent: ping\ndata: {}\n\n");
    assert_eq!(events.len(), 2);
    assert_eq!(events[0].event.as_deref(), Some("message_start"));
    assert_eq!(events[0].data, "{\"a\":1}");
    assert_eq!(events[1].event.as_deref(), Some("ping"));
}

#[test]
fn reassembles_utf8_split_across_chunks() {
    let mut dec = SseDecoder::new();
    let bytes = "data: 🎉\n\n".as_bytes().to_vec();
    // Split one byte into the 4-byte emoji (after "data: ").
    let events = dec.push(&bytes[..7]);
    assert!(events.is_empty());
    let events = dec.push(&bytes[7..]);
    assert_eq!(events.len(), 1);
    assert_eq!(events[0].data, "🎉");
}

#[test]
fn handles_crlf_and_done_sentinel() {
    let mut dec = SseDecoder::new();
    let events = dec.push(b"data: [DONE]\r\n\r\n");
    assert_eq!(events.len(), 1);
    assert_eq!(events[0].data, "[DONE]");
}

#[test]
fn trailing_block_without_terminator_is_dropped() {
    let mut dec = SseDecoder::new();
    let events = dec.push(b"event: x\ndata: {\"a\":1}");
    assert!(events.is_empty());
    let events = dec.push(b"more: still-no-terminator");
    assert!(events.is_empty());
}

#[test]
fn chunking_anywhere_gives_the_same_events() {
    let stream: &[u8] = b"event: a\r\ndata: one\r\ndata: two\r\n\r\n: comment\n\nevent: b\ndata:x\n\ndata: tail";
    let mut whole = SseDecoder::new();
    let expected = whole.push(stream);
    assert_eq!(expected.len(), 2);
    assert_eq!(expected[0].data, "one\ntwo");
    assert_eq!(expected[1].data, "x");
    for cut in 0..=stream.len() {
        let mut dec = SseDecoder::new();
        let mut got = dec.push(&stream[..cut]);
        got.extend(dec.push(&stream[cut..]));
        assert_eq!(got, expected, "cut at {cut}");
    }
}

#[test]
fn event_name_is_trimmed_and_comments_ignored() {
    let mut dec = SseDecoder::new();
    let events = dec.push(b": keepalive\n\nevent:   spaced\nid: 7\n\n");
    assert_eq!(events.len(), 1);
    assert_eq!(events[0].event.as_deref(), Some("spaced"));
    assert_eq!(events[0].data, "");
}

#[test]
fn frame_with_and_without_event_name() {
    assert_eq!(sse_frame(Some("ping"), "{}"), b"event: ping\ndata: {}\n\n".to_vec());
    assert_eq!(sse_frame(None, "[DONE]"), b"data: [DONE]\n\n".to_vec());
}
