use litellm_rust::codec::ProtocolCodec;
use litellm_rust::codec::openai_chat::OpenAiChatCodec;
use litellm_rust::ir::{
    BlockStart, ChatResponse, ContentBlock, ImageSource, Role, StopReason, StreamEvent, ToolChoice,
    Usage,
};
use litellm_rust::json::Json;
use litellm_rust::sse::{SseEvent, StreamParser, StreamRenderer};
use litellm_rust::wire::RequestCtx;

fn to_json(v: serde_json::Value) -> Json {
    match v {
        serde_json::Value::Null => Json::Null,
        serde_json::Value::Bool(b) => Json::Bool(b),
        serde_json::Value::Number(n) => match (n.as_u64(), n.as_i64()) {
            (Some(u), _) => Json::UInt(u),
            (None, Some(i)) => Json::NegInt(i),
            (None, None) => Json::Float(n.to_string()),
        },
        serde_json::Value::String(s) => Json::Str(s),
        serde_json::Value::Array(a) => Json::Array(a.into_iter().map(to_json).collect()),
        serde_json::Value::Object(o) => {
            Json::Object(o.into_iter().map(|(k, v)| (k, to_json(v))).collect())
        }
    }
}

fn doc(text: &str) -> Json {
    to_json(serde_json::from_str(text).unwrap())
}

fn at<'a>(j: &'a Json, key: &str) -> &'a Json {
    j.get(key).unwrap()
}

fn chunk(data: &str) -> SseEvent {
    SseEvent { event: None, data: data.to_owned() }
}

fn frames(bytes: &[u8]) -> Vec<String> {
    let text = String::from_utf8(bytes.to_vec()).unwrap();
    text.split("\n\n")
        .filter(|f| !f.is_empty())
        .map(|f| f.trim_start_matches("data: ").to_owned())
        .collect()
}

#[test]
fn hoists_system_and_maps_roles() {
    let body = doc(
        r#"{
            "model": "gpt",
            "messages": [
                {"role": "system", "content": "sys"},
                {"role": "developer", "content": [{"type": "text", "text": "dev"}]},
                {"role": "user", "content": [
                    {"type": "text", "text": "see"},
                    {"type": "image_url", "image_url": {"url": "https://x/y.png"}}
                ]},
                {"role": "assistant", "content": "", "tool_calls": [
                    {"id": "t1", "type": "function", "function": {"name": "f", "arguments": "{\"q\":2}"}}
                ]},
                {"role": "tool", "tool_call_id": "t1", "content": "42"},
                {"content": "no role"}
            ],
            "tools": [{"type": "function", "function": {"name": "f", "description": "d"}}, {"type": "x"}],
            "tool_choice": {"type": "function", "function": {"name": "f"}},
            "max_completion_tokens": 99,
            "reasoning_effort": "low",
            "stop": "END",
            "stream": true,
            "seed": 7
        }"#,
    );
    let req = OpenAiChatCodec.parse_request(body).unwrap();
    assert_eq!(req.system.len(), 2);
    assert_eq!(req.messages.len(), 4);
    assert!(matches!(
        &req.messages[0].content[1],
        ContentBlock::Image { source: ImageSource::Url(u) } if u == "https://x/y.png"
    ));
    assert!(matches!(req.messages[1].role, Role::Assistant));
    assert_eq!(req.messages[1].content.len(), 1);
    match &req.messages[1].content[0] {
        ContentBlock::ToolUse { input, .. } => assert_eq!(at(input, "q").as_u64(), Some(2)),
        _ => panic!("expected a tool use"),
    }
    assert!(matches!(req.messages[2].role, Role::Tool));
    assert!(matches!(req.messages[3].role, Role::User));
    assert_eq!(req.tools.len(), 1);
    assert!(matches!(&req.tool_choice, Some(ToolChoice::Tool(n)) if n == "f"));
    assert_eq!(req.max_tokens, Some(99));
    assert_eq!(req.stop, vec!["END".to_owned()]);
    assert!(req.stream);
    assert_eq!(req.extra.len(), 1);
}

#[test]
fn renders_request_with_tool_messages_and_stream_options() {
    let body = doc(
        r#"{
            "model": "gpt",
            "messages": [
                {"role": "system", "content": "sys"},
                {"role": "assistant", "tool_calls": [
                    {"id": "t1", "function": {"name": "f", "arguments": "{}"}}
                ]},
                {"role": "tool", "tool_call_id": "t1", "content": "ok"},
                {"role": "user", "content": ""}
            ],
            "parallel_tool_calls": false,
            "stream": true
        }"#,
    );
    let req = OpenAiChatCodec.parse_request(body).unwrap();
    let out = OpenAiChatCodec.render_request(&req).unwrap();
    let messages = at(&out, "messages").as_array().unwrap();
    assert_eq!(messages.len(), 3);
    assert_eq!(at(&messages[0], "role").as_str().unwrap(), "system");
    assert!(at(&messages[1], "content").is_null());
    assert_eq!(at(&messages[2], "role").as_str().unwrap(), "tool");
    assert!(out.get("parallel_tool_calls").is_none());
    assert_eq!(at(at(&out, "stream_options"), "include_usage").as_bool(), Some(true));
}

#[test]
fn parses_response_with_reasoning_refusal_and_usage() {
    let body = doc(
        r#"{
            "id": "c1", "model": "m",
            "choices": [{"message": {"reasoning_content": "why", "content": null, "refusal": "no",
                "tool_calls": [{"id": "t", "function": {"name": "f", "arguments": "oops"}}]},
                "finish_reason": "tool_calls"}],
            "usage": {"prompt_tokens": 9, "completion_tokens": 4, "prompt_tokens_details": {"cached_tokens": 5}}
        }"#,
    );
    let resp = OpenAiChatCodec.parse_response(body).unwrap();
    // `content` is present (null), so the refusal is not read.
    assert_eq!(resp.content.len(), 2);
    assert!(matches!(&resp.content[0], ContentBlock::Thinking { text, .. } if text == "why"));
    match &resp.content[1] {
        ContentBlock::ToolUse { input, .. } => assert_eq!(input.as_str().unwrap(), "oops"),
        _ => panic!("expected a tool use"),
    }
    assert!(matches!(resp.stop_reason, Some(StopReason::ToolUse)));
    assert_eq!(resp.usage.cache_read_input_tokens, 5);
}

#[test]
fn renders_response_message() {
    let resp = ChatResponse {
        id: String::new(),
        model: String::new(),
        content: vec![
            ContentBlock::Thinking { text: "r".to_owned(), signature: None },
            ContentBlock::ToolUse {
                id: "t".to_owned(),
                name: "f".to_owned(),
                input: Json::Str("{\"a\":1}".to_owned()),
            },
        ],
        stop_reason: None,
        usage: Usage {
            input_tokens: 3,
            output_tokens: 4,
            cache_creation_input_tokens: 0,
            cache_read_input_tokens: 0,
        },
    };
    let ctx = RequestCtx { model: "pub".to_owned(), stream: false };
    let out = OpenAiChatCodec.render_response(&resp, &ctx).unwrap();
    assert_eq!(at(&out, "id").as_str().unwrap(), "chatcmpl-litellm");
    let choice = &at(&out, "choices").as_array().unwrap()[0];
    assert_eq!(at(choice, "finish_reason").as_str().unwrap(), "stop");
    let message = at(choice, "message");
    assert!(at(message, "content").is_null());
    assert_eq!(at(message, "reasoning_content").as_str().unwrap(), "r");
    let call = &at(message, "tool_calls").as_array().unwrap()[0];
    assert_eq!(at(at(call, "function"), "arguments").as_str().unwrap(), "{\"a\":1}");
    let usage = at(&out, "usage");
    assert_eq!(at(usage, "total_tokens").as_u64(), Some(7));
    assert!(usage.get("prompt_tokens_details").is_none());
}

#[test]
fn stream_parser_tracks_blocks_and_finishes_once() {
    let mut p = OpenAiChatCodec.stream_parser();
    let evs = p
        .parse_event(&chunk(
            r#"{"id":"c","model":"m","choices":[{"delta":{"content":"he","tool_calls":[{"index":1,"id":"t","function":{"name":"f","arguments":"{"}}]}}]}"#,
        ))
        .unwrap();
    assert!(matches!(&evs[0], StreamEvent::MessageStart { id, .. } if id == "c"));
    assert!(matches!(evs[1], StreamEvent::ContentBlockStart { index: 0, block: BlockStart::Text }));
    assert!(matches!(evs[3], StreamEvent::ContentBlockStart { index: 1, .. }));
    assert!(matches!(evs[4], StreamEvent::ToolUseInputDelta { index: 1, .. }));
    let evs = p
        .parse_event(&chunk(
            r#"{"choices":[{"delta":{"tool_calls":[{"index":1,"function":{"arguments":"}"}}]},"finish_reason":"tool_calls"}],"usage":{"prompt_tokens":1,"completion_tokens":2}}"#,
        ))
        .unwrap();
    assert_eq!(evs.len(), 1);
    assert_eq!(p.open_indices(), vec![0, 1]);
    let done = p.parse_event(&chunk("[DONE]")).unwrap();
    assert_eq!(done.len(), 4);
    assert!(matches!(&done[2], StreamEvent::MessageDelta { stop_reason: Some(StopReason::ToolUse), usage: Some(u) } if u.output_tokens == 2));
    assert!(matches!(done[3], StreamEvent::MessageStop));
    assert!(p.finish().is_empty());
}

#[test]
fn stream_parser_surfaces_errors() {
    let mut p = OpenAiChatCodec.stream_parser();
    let evs = p.parse_event(&chunk(r#"{"error":{"message":"boom"}}"#)).unwrap();
    assert_eq!(evs.len(), 1);
    let end = p.finish();
    assert!(matches!(&end[0], StreamEvent::MessageDelta { stop_reason: Some(StopReason::Other(m)), .. } if m == "error: boom"));
    assert!(p.parse_event(&chunk("not json")).is_err());
}

#[test]
fn stream_renderer_numbers_tool_calls_and_sends_done_once() {
    let ctx = RequestCtx { model: "pub".to_owned(), stream: true };
    let mut r = OpenAiChatCodec.stream_renderer(&ctx);
    r.render_event(&StreamEvent::MessageStart { id: "x".to_owned(), model: String::new() });
    r.render_event(&StreamEvent::ContentBlockStart {
        index: 5,
        block: BlockStart::ToolUse { id: "a".to_owned(), name: "f".to_owned() },
    });
    let start = frames(&r.render_event(&StreamEvent::ContentBlockStart {
        index: 7,
        block: BlockStart::ToolUse { id: "b".to_owned(), name: "g".to_owned() },
    }));
    let v: serde_json::Value = serde_json::from_str(&start[0]).unwrap();
    assert_eq!(v["choices"][0]["delta"]["tool_calls"][0]["index"], 1);
    assert_eq!(v["id"], "x");
    let delta = frames(&r.render_event(&StreamEvent::ToolUseInputDelta {
        index: 7,
        partial_json: "{}".to_owned(),
    }));
    let v: serde_json::Value = serde_json::from_str(&delta[0]).unwrap();
    assert_eq!(v["choices"][0]["delta"]["tool_calls"][0]["index"], 1);
    let md = frames(&r.render_event(&StreamEvent::MessageDelta {
        stop_reason: Some(StopReason::MaxTokens),
        usage: Some(Usage::zero()),
    }));
    assert_eq!(md.len(), 2);
    let v: serde_json::Value = serde_json::from_str(&md[0]).unwrap();
    assert_eq!(v["choices"][0]["finish_reason"], "length");
    let stop = frames(&r.render_event(&StreamEvent::MessageStop));
    assert_eq!(stop, vec!["[DONE]".to_owned()]);
    assert!(r.finish().is_empty());
}
