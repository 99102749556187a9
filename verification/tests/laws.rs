use litellm_rust::codec::anthropic::blocks::usage_from_anthropic;
use litellm_rust::codec::anthropic::AnthropicCodec;
use litellm_rust::codec::cache_inject::auto_inject_anthropic_breakpoints;
use litellm_rust::codec::common::{data_url_to_source, source_to_data_url};
use litellm_rust::codec::gemini::common::{gemini_usage, usage_from_gemini};
use litellm_rust::codec::gemini::parts::surrogate_id;
use litellm_rust::codec::gemini::stream::GeminiStreamParser;
use litellm_rust::codec::openai_chat::parse::usage_from_openai;
use litellm_rust::codec::openai_chat::render::openai_usage;
use litellm_rust::codec::openai_chat::stream::OpenAiChatStreamParser;
use litellm_rust::codec::openai_responses::stream::ResponsesStreamParser;
use litellm_rust::codec::{codec_for, Codec, ProtocolCodec};
use litellm_rust::headers::Headers;
use litellm_rust::ir::{
    CacheMarkers, ChatRequest, ChatResponse, ContentBlock, Effort, ImageSource, Message, Role,
    StopReason, StreamEvent, Usage,
};
use litellm_rust::json::Json;
use litellm_rust::sse::{sse_frame, SseDecoder, SseEvent, StreamParser};
use litellm_rust::wire::{RequestCtx, WireFormat};

fn obj(entries: Vec<(&str, Json)>) -> Json {
    Json::Object(entries.into_iter().map(|(k, v)| (k.to_owned(), v)).collect())
}

fn data(text: &str) -> SseEvent {
    SseEvent { event: None, data: text.to_owned() }
}

fn count_stops(events: &[StreamEvent]) -> usize {
    events.iter().filter(|e| matches!(e, StreamEvent::MessageStop)).count()
}

#[test]
fn effort_survives_its_name_and_budget() {
    for e in [Effort::Minimal, Effort::Low, Effort::Medium, Effort::High] {
        assert_eq!(Effort::parse(e.as_str()), Some(e));
        assert_eq!(Effort::from_budget(e.to_budget()), e);
    }
    assert_eq!(Effort::parse("  HIGH "), Some(Effort::High));
    assert_eq!(Effort::parse("none"), Some(Effort::Minimal));
    assert_eq!(Effort::parse("extreme"), None);
}

#[test]
fn anthropic_stop_reasons_round_trip() {
    for s in ["end_turn", "max_tokens", "tool_use", "stop_sequence", "refusal", "pause_turn"] {
        assert_eq!(StopReason::from_anthropic(s).to_anthropic(), s);
    }
}

#[test]
fn openai_stop_reasons_round_trip_but_function_call() {
    for s in ["stop", "length", "tool_calls", "content_filter", "weird"] {
        assert_eq!(StopReason::from_openai(s).to_openai(), s);
    }
    assert_eq!(StopReason::from_openai("function_call").to_openai(), "tool_calls");
    // A stop sequence has no OpenAI name of its own.
    assert_eq!(StopReason::StopSequence.to_openai(), "stop");
}

#[test]
fn gemini_keeps_three_stop_reasons_apart() {
    assert!(matches!(StopReason::from_gemini(&StopReason::EndTurn.to_gemini()), StopReason::EndTurn));
    assert!(matches!(
        StopReason::from_gemini(&StopReason::MaxTokens.to_gemini()),
        StopReason::MaxTokens
    ));
    assert!(matches!(
        StopReason::from_gemini(&StopReason::ContentFilter.to_gemini()),
        StopReason::ContentFilter
    ));
    assert_eq!(StopReason::ToolUse.to_gemini(), "STOP");
}

#[test]
fn anthropic_usage_round_trips_through_the_ir() {
    let wire = obj(vec![
        ("input_tokens", Json::UInt(7)),
        ("output_tokens", Json::UInt(3)),
        ("cache_creation_input_tokens", Json::UInt(11)),
        ("cache_read_input_tokens", Json::UInt(13)),
    ]);
    let usage = usage_from_anthropic(Some(&wire));
    assert_eq!(usage.input_tokens, 31);
    let resp = ChatResponse {
        id: String::new(),
        model: String::new(),
        content: Vec::new(),
        stop_reason: None,
        usage,
    };
    let ctx = RequestCtx { model: "m".to_owned(), stream: false };
    let out = AnthropicCodec.render_response(&resp, &ctx).unwrap();
    let u = out.get("usage").unwrap();
    assert_eq!(u.get_u64("input_tokens"), Some(7));
    assert_eq!(u.get_u64("output_tokens"), Some(3));
    assert_eq!(u.get_u64("cache_creation_input_tokens"), Some(11));
    assert_eq!(u.get_u64("cache_read_input_tokens"), Some(13));
}

#[test]
fn openai_and_gemini_usage_round_trip() {
    let u = Usage {
        input_tokens: 100,
        output_tokens: 20,
        cache_creation_input_tokens: 0,
        cache_read_input_tokens: 40,
    };
    assert_eq!(usage_from_openai(Some(&openai_usage(&u))), u);
    assert_eq!(usage_from_gemini(Some(&gemini_usage(&u))), u);
}

#[test]
fn header_reads_back_what_was_set() {
    let mut h = Headers::new();
    h.insert("a", b"1".to_vec());
    h.insert("b", b"2".to_vec());
    h.insert("a", b"3".to_vec());
    assert_eq!(h.get("a"), Some(b"3".to_vec()));
    assert_eq!(h.get("b"), Some(b"2".to_vec()));
    assert_eq!(h.get("c"), None);
    assert_eq!(h.entries().iter().filter(|(n, _)| n == "a").count(), 1);
}

#[test]
fn gemini_stream_ends_once() {
    let mut p = GeminiStreamParser::new();
    let ev = p
        .parse_event(&data(r#"{"candidates":[{"content":{"parts":[{"text":"hi"}]}}]}"#))
        .unwrap();
    assert!(!ev.is_empty());
    let first = p.finish();
    assert_eq!(count_stops(&first), 1);
    assert!(p.finish().is_empty());
}

#[test]
fn chat_stream_ends_once() {
    let mut p = OpenAiChatStreamParser::new();
    p.parse_event(&data(r#"{"id":"c1","model":"m","choices":[{"delta":{"content":"hi"}}]}"#))
        .unwrap();
    let done = p.parse_event(&data("[DONE]")).unwrap();
    assert_eq!(count_stops(&done), 1);
    assert!(p.finish().is_empty());
}

#[test]
fn responses_stream_ends_once() {
    let mut p = ResponsesStreamParser::new();
    p.parse_event(&data(r#"{"type":"response.created","response":{"id":"r1","model":"m"}}"#))
        .unwrap();
    let first = p.finish();
    assert_eq!(count_stops(&first), 1);
    assert!(p.finish().is_empty());
}

fn long_request() -> ChatRequest {
    ChatRequest {
        model: String::new(),
        system: vec![ContentBlock::Text { text: "s".repeat(400) }],
        messages: (0..30)
            .map(|_| Message {
                role: Role::User,
                content: vec![ContentBlock::Text { text: "m".repeat(100) }],
            })
            .collect(),
        tools: Vec::new(),
        tool_choice: None,
        cache: CacheMarkers::new(),
        parallel_tool_calls: None,
        response_format: None,
        reasoning: None,
        max_tokens: None,
        temperature: None,
        top_p: None,
        stop: Vec::new(),
        stream: false,
        extra: Vec::new(),
    }
}

#[test]
fn injection_respects_the_budget_and_is_idempotent() {
    let mut req = long_request();
    auto_inject_anthropic_breakpoints(&mut req, 10, 10, 1);
    let placed = req.cache.tools as usize + req.cache.system as usize + req.cache.messages.len();
    assert!(placed <= 4);
    assert!(req.cache.system);
    assert_eq!(req.cache.messages, vec![15, 29]);
    let before = req.cache.messages.clone();
    auto_inject_anthropic_breakpoints(&mut req, 10, 10, 1);
    assert_eq!(req.cache.messages, before);

    let mut tight = long_request();
    auto_inject_anthropic_breakpoints(&mut tight, 1, 10, 1);
    let placed = tight.cache.tools as usize + tight.cache.system as usize
        + tight.cache.messages.len();
    assert_eq!(placed, 1);
}

#[test]
fn data_url_round_trips() {
    let src = ImageSource::Base64 { media_type: "image/png".to_owned(), data: "QUJD".to_owned() };
    let url = source_to_data_url(&src);
    assert_eq!(url, "data:image/png;base64,QUJD");
    match data_url_to_source(&url) {
        ImageSource::Base64 { media_type, data } => {
            assert_eq!(media_type, "image/png");
            assert_eq!(data, "QUJD");
        },
        ImageSource::Url(u) => panic!("expected inline data, got {u}"),
    }
    match data_url_to_source("https://x/y.png") {
        ImageSource::Url(u) => assert_eq!(u, "https://x/y.png"),
        ImageSource::Base64 { .. } => panic!("expected a reference"),
    }
}

#[test]
fn codec_for_picks_the_protocol() {
    assert!(matches!(codec_for(WireFormat::AnthropicMessages), Codec::Anthropic(_)));
    assert!(matches!(codec_for(WireFormat::OpenAiChat), Codec::OpenAiChat(_)));
    assert!(matches!(codec_for(WireFormat::OpenAiResponses), Codec::OpenAiResponses(_)));
    assert!(matches!(codec_for(WireFormat::Gemini), Codec::Gemini(_)));
    assert_eq!(codec_for(WireFormat::OpenAiResponses).cache_key_headers(), vec![
        "x-codex-beta-features",
    ]);
    assert!(codec_for(WireFormat::Gemini).cache_key_headers().is_empty());
    let body = obj(vec![
        ("model", Json::Str("m".to_owned())),
        ("max_tokens", Json::UInt(5)),
        ("messages", Json::Array(vec![obj(vec![
            ("role", Json::Str("user".to_owned())),
            ("content", Json::Str("hi".to_owned())),
        ])])),
    ]);
    let req = codec_for(WireFormat::AnthropicMessages).parse_request(body).unwrap();
    assert_eq!(req.messages.len(), 1);
}

#[test]
fn surrogate_ids_differ_by_ordinal() {
    let args = obj(vec![("q", Json::Str("same".to_owned()))]);
    let a = surrogate_id("lookup", &args, 0);
    let b = surrogate_id("lookup", &args, 1);
    assert!(a.starts_with("call_"));
    assert_eq!(a.len(), 21);
    assert!(a[5..].chars().all(|c| c.is_ascii_digit() || ('a'..='f').contains(&c)));
    assert_ne!(a, b);
    assert_eq!(a, surrogate_id("lookup", &args, 0));
}

#[test]
fn malformed_stream_chunk_is_an_invalid_json_message() {
    let mut p = GeminiStreamParser::new();
    match p.parse_event(&data("{not json")) {
        Err(litellm_rust::errors::GatewayError::InvalidJsonMessage(m)) => assert!(!m.is_empty()),
        _ => panic!("expected an invalid JSON message"),
    }
    // Nothing was started, so ending the stream emits nothing.
    assert!(p.finish().is_empty());
}

#[test]
fn frames_read_back_through_the_decoder() {
    let mut dec = SseDecoder::new();
    let mut bytes = sse_frame(Some("message_start"), r#"{"a":"é"}"#);
    bytes.extend(sse_frame(None, "[DONE]"));
    let events = dec.push(&bytes);
    assert_eq!(events.len(), 2);
    assert_eq!(events[0].event.as_deref(), Some("message_start"));
    assert_eq!(events[0].data, r#"{"a":"é"}"#);
    assert_eq!(events[1].event, None);
    assert_eq!(events[1].data, "[DONE]");
}

