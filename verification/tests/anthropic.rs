use litellm_rust::codec::ProtocolCodec;
use litellm_rust::codec::anthropic::blocks::usage_from_anthropic;
use litellm_rust::codec::anthropic::AnthropicCodec;
use litellm_rust::ir::{
    BlockStart, ChatResponse, ContentBlock, StopReason, StreamEvent, Usage,
};
use litellm_rust::json::Json;
use litellm_rust::sse::{SseEvent, StreamParser, StreamRenderer};
use litellm_rust::wire::RequestCtx;

fn to_json(v: serde_json::Value) -> Json {
    match v {
        serde_json::Value::Null => Json::Null,
        serde_json::Value::Bool(b) => Json::Bool(b),
        serde_json::Value::Number(n) => match (n.as_u64(), n.as_i64()) {
            (Some(u), _) => Json::UInt(u),
            (None, Some(i)) => Json::NegInt(i),
            (None, None) => Json::Float(n.to_string()),
        },
        serde_json::Value::String(s) => Json::Str(s),
        serde_json::Value::Array(a) => Json::Array(a.into_iter().map(to_json).collect()),
        serde_json::Value::Object(o) => {
            Json::Object(o.into_iter().map(|(k, v)| (k, to_json(v))).collect())
        }
    }
}

fn doc(text: &str) -> Json {
    to_json(serde_json::from_str(text).unwrap())
}

fn at<'a>(j: &'a Json, key: &str) -> &'a Json {
    j.get(key).unwrap()
}

#[test]
fn parses_and_renders_cache_control_breakpoints() {
    let body = doc(
        r#"{
            "model": "sonnet",
            "system": [
                {"type": "text", "text": "you are helpful"},
                {"type": "text", "text": "rules", "cache_control": {"type": "ephemeral"}}
            ],
            "tools": [
                {"name": "a", "input_schema": {"type": "object"}},
                {"name": "b", "input_schema": {"type": "object"},
                 "cache_control": {"type": "ephemeral"}}
            ],
            "messages": [
                {"role": "user", "content": [
                    {"type": "text", "text": "hi", "cache_control": {"type": "ephemeral"}}
                ]}
            ],
            "max_tokens": 100
        }"#,
    );
    let req = AnthropicCodec.parse_request(body).unwrap();
    assert!(req.cache.tools);
    assert!(req.cache.system);
    assert_eq!(req.cache.messages, vec![0]);

    let out = AnthropicCodec.render_request(&req).unwrap();
    let sys = at(&out, "system").as_array().unwrap();
    assert!(sys[0].get("cache_control").is_none());
    assert!(sys[1].get("cache_control").is_some());
    let tools = at(&out, "tools").as_array().unwrap();
    assert!(tools[0].get("cache_control").is_none());
    assert!(tools[1].get("cache_control").is_some());
    let messages = at(&out, "messages").as_array().unwrap();
    let content = at(&messages[0], "content").as_array().unwrap();
    assert!(content.last().unwrap().get("cache_control").is_some());
}

#[test]
fn no_breakpoints_when_client_sets_none() {
    let body = doc(
        r#"{
            "model": "sonnet",
            "system": [{"type": "text", "text": "hi"}],
            "messages": [{"role": "user", "content": "hello"}],
            "max_tokens": 100
        }"#,
    );
    let req = AnthropicCodec.parse_request(body).unwrap();
    assert!(req.cache.is_empty());
    let out = AnthropicCodec.render_request(&req).unwrap();
    let sys = at(&out, "system").as_array().unwrap();
    assert!(sys[0].get("cache_control").is_none());
}

#[test]
fn stream_parser_folds_cache_usage_from_message_start() {
    let mut p = AnthropicCodec.stream_parser();
    p.parse_event(&SseEvent {
        event: Some("message_start".to_owned()),
        data: r#"{"type":"message_start","message":{"id":"m","model":"sonnet","usage":{"input_tokens":5,"cache_read_input_tokens":1000,"cache_creation_input_tokens":200,"output_tokens":0}}}"#.to_owned(),
    })
    .unwrap();
    let evs = p
        .parse_event(&SseEvent {
            event: Some("message_delta".to_owned()),
            data: r#"{"type":"message_delta","delta":{"stop_reason":"end_turn"},"usage":{"output_tokens":42}}"#.to_owned(),
        })
        .unwrap();
    match &evs[0] {
        StreamEvent::MessageDelta { usage: Some(u), .. } => {
            assert_eq!(u.input_tokens, 1205);
            assert_eq!(u.output_tokens, 42);
            assert_eq!(u.cache_read_input_tokens, 1000);
            assert_eq!(u.cache_creation_input_tokens, 200);
        }
        _ => panic!("expected MessageDelta with usage"),
    }
}

#[test]
fn usage_makes_input_inclusive_and_round_trips() {
    let raw = doc(
        r#"{
            "input_tokens": 50,
            "output_tokens": 10,
            "cache_creation_input_tokens": 200,
            "cache_read_input_tokens": 1000
        }"#,
    );
    let usage = usage_from_anthropic(Some(&raw));
    assert_eq!(usage.input_tokens, 1250);
    assert_eq!(usage.cache_read_input_tokens, 1000);
    assert_eq!(usage.cache_creation_input_tokens, 200);
    assert_eq!(usage.non_cached_input_tokens(), 50);

    let resp = ChatResponse {
        id: String::new(),
        model: String::new(),
        content: Vec::new(),
        stop_reason: None,
        usage,
    };
    let ctx = RequestCtx { model: "sonnet".to_owned(), stream: false };
    let out = AnthropicCodec.render_response(&resp, &ctx).unwrap();
    let u = at(&out, "usage");
    assert_eq!(at(u, "input_tokens").as_u64(), Some(50));
    assert_eq!(at(u, "cache_read_input_tokens").as_u64(), Some(1000));
    assert_eq!(at(u, "cache_creation_input_tokens").as_u64(), Some(200));
}

#[test]
fn render_response_defaults_id_and_maps_stop_reason() {
    let resp = ChatResponse {
        id: String::new(),
        model: "x".to_owned(),
        content: vec![ContentBlock::Text { text: "hello".to_owned() }],
        stop_reason: Some(StopReason::ToolUse),
        usage: Usage::zero(),
    };
    let ctx = RequestCtx { model: "public".to_owned(), stream: false };
    let out = AnthropicCodec.render_response(&resp, &ctx).unwrap();
    assert_eq!(at(&out, "id").as_str().unwrap(), "msg_litellm");
    assert_eq!(at(&out, "model").as_str().unwrap(), "public");
    assert_eq!(at(&out, "stop_reason").as_str().unwrap(), "tool_use");
    assert!(at(&out, "stop_sequence").is_null());
    let content = at(&out, "content").as_array().unwrap();
    assert_eq!(at(&content[0], "text").as_str().unwrap(), "hello");
}

#[test]
fn render_request_coalesces_same_role_turns_and_drops_empty_ones() {
    let body = doc(
        r#"{
            "model": "m",
            "messages": [
                {"role": "user", "content": "a"},
                {"role": "user", "content": []},
                {"role": "user", "content": [{"type": "text", "text": "b"}]},
                {"role": "assistant", "content": "c"}
            ]
        }"#,
    );
    let req = AnthropicCodec.parse_request(body).unwrap();
    let out = AnthropicCodec.render_request(&req).unwrap();
    assert_eq!(at(&out, "max_tokens").as_u64(), Some(4096));
    let messages = at(&out, "messages").as_array().unwrap();
    assert_eq!(messages.len(), 2);
    assert_eq!(at(&messages[0], "role").as_str().unwrap(), "user");
    assert_eq!(at(&messages[0], "content").as_array().unwrap().len(), 2);
    assert_eq!(at(&messages[1], "role").as_str().unwrap(), "assistant");
}

#[test]
fn thinking_budget_is_clamped_below_max_tokens_and_drops_temperature() {
    let body = doc(
        r#"{
            "model": "m",
            "messages": [],
            "max_tokens": 2000,
            "temperature": 0.5,
            "thinking": {"type": "enabled", "budget_tokens": 5000}
        }"#,
    );
    let req = AnthropicCodec.parse_request(body).unwrap();
    let out = AnthropicCodec.render_request(&req).unwrap();
    assert_eq!(at(at(&out, "thinking"), "budget_tokens").as_u64(), Some(1999));
    assert!(out.get("temperature").is_none());

    let body = doc(r#"{"model": "m", "messages": [], "temperature": 0.5}"#);
    let req = AnthropicCodec.parse_request(body).unwrap();
    let out = AnthropicCodec.render_request(&req).unwrap();
    assert!(out.get("thinking").is_none());
    assert!(out.get("temperature").is_some());
}

#[test]
fn parallel_tool_calls_off_sets_disable_flag() {
    let body = doc(
        r#"{
            "model": "m",
            "messages": [],
            "tool_choice": {"type": "auto", "disable_parallel_tool_use": true}
        }"#,
    );
    let req = AnthropicCodec.parse_request(body).unwrap();
    let out = AnthropicCodec.render_request(&req).unwrap();
    let choice = at(&out, "tool_choice");
    assert_eq!(at(choice, "type").as_str().unwrap(), "auto");
    assert_eq!(at(choice, "disable_parallel_tool_use").as_bool(), Some(true));
}

#[test]
fn stream_parser_rejects_invalid_json_and_skips_blank_data() {
    let mut p = AnthropicCodec.stream_parser();
    let blank = p.parse_event(&SseEvent { event: Some("ping".to_owned()), data: "  ".to_owned() });
    assert!(blank.unwrap().is_empty());
    let bad = p.parse_event(&SseEvent { event: None, data: "{not json".to_owned() });
    assert!(bad.is_err());
    let delta = p
        .parse_event(&SseEvent {
            event: Some("content_block_delta".to_owned()),
            data: r#"{"index":2,"delta":{"type":"text_delta","text":"hi"}}"#.to_owned(),
        })
        .unwrap();
    match &delta[0] {
        StreamEvent::TextDelta { index, text } => {
            assert_eq!(*index, 2);
            assert_eq!(text, "hi");
        }
        _ => panic!("expected a text delta"),
    }
}

#[test]
fn stream_renderer_writes_named_frames() {
    let ctx = RequestCtx { model: "public".to_owned(), stream: true };
    let mut r = AnthropicCodec.stream_renderer(&ctx);
    let bytes = r.render_event(&StreamEvent::ContentBlockStart {
        index: 1,
        block: BlockStart::Text,
    });
    let text = String::from_utf8(bytes).unwrap();
    assert!(text.starts_with("event: content_block_start\ndata: "));
    assert!(text.ends_with("\n\n"));
    let data: serde_json::Value =
        serde_json::from_str(text.trim_end().split("data: ").nth(1).unwrap()).unwrap();
    assert_eq!(data["index"], 1);
    assert_eq!(data["content_block"]["type"], "text");

    let bytes = r.render_event(&StreamEvent::MessageStart { id: String::new(), model: "x".to_owned() });
    let text = String::from_utf8(bytes).unwrap();
    let data: serde_json::Value =
        serde_json::from_str(text.trim_end().split("data: ").nth(1).unwrap()).unwrap();
    assert_eq!(data["message"]["id"], "msg_litellm");
    assert_eq!(data["message"]["model"], "public");
}
