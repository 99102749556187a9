use litellm_rust::codec::ProtocolCodec;
use litellm_rust::codec::openai_responses::OpenAiResponsesCodec;
use litellm_rust::ir::{
    BlockStart, ChatResponse, ContentBlock, ImageSource, Role, StopReason, StreamEvent, ToolChoice,
    Usage,
};
use litellm_rust::json::Json;
use litellm_rust::sse::{SseEvent, StreamParser, StreamRenderer};
use litellm_rust::wire::RequestCtx;

fn to_json(v: serde_json::Value) -> Json {
    match v {
        serde_json::Value::Null => Json::Null,
        serde_json::Value::Bool(b) => Json::Bool(b),
        serde_json::Value::Number(n) => match (n.as_u64(), n.as_i64()) {
            (Some(u), _) => Json::UInt(u),
            (None, Some(i)) => Json::NegInt(i),
            (None, None) => Json::Float(n.to_string()),
        },
        serde_json::Value::String(s) => Json::Str(s),
        serde_json::Value::Array(a) => Json::Array(a.into_iter().map(to_json).collect()),
        serde_json::Value::Object(o) => {
            Json::Object(o.into_iter().map(|(k, v)| (k, to_json(v))).collect())
        }
    }
}

fn doc(text: &str) -> Json {
    to_json(serde_json::from_str(text).unwrap())
}

fn at<'a>(j: &'a Json, key: &str) -> &'a Json {
    j.get(key).unwrap()
}

fn event(data: &str) -> SseEvent {
    SseEvent { event: None, data: data.to_owned() }
}

fn frame_data(bytes: &[u8]) -> Vec<serde_json::Value> {
    let text = String::from_utf8(bytes.to_vec()).unwrap();
    text.split("\n\n")
        .filter(|f| !f.is_empty())
        .map(|f| serde_json::from_str(f.split("data: ").nth(1).unwrap()).unwrap())
        .collect()
}

#[test]
fn parses_items_tools_and_choice() {
    let body = doc(
        r#"{
            "model": "gpt",
            "instructions": "be brief",
            "input": [
                {"role": "developer", "content": "sys"},
                {"type": "message", "role": "user", "content": [
                    {"type": "input_text", "text": "look"},
                    {"type": "input_image", "image_url": "data:image/jpeg;base64,AAAA"}
                ]},
                {"type": "function_call", "call_id": "c1", "name": "f", "arguments": "{\"a\":1}"},
                {"type": "function_call_output", "call_id": "c1", "output": {"ok": true}},
                7
            ],
            "tools": [
                {"type": "function", "name": "f", "parameters": {"type": "object"}},
                {"type": "web_search"}
            ],
            "tool_choice": {"type": "function", "name": "f"},
            "max_output_tokens": 50,
            "reasoning": {"effort": "High"},
            "user": "u1"
        }"#,
    );
    let req = OpenAiResponsesCodec.parse_request(body).unwrap();
    assert_eq!(req.model, "gpt");
    assert_eq!(req.system.len(), 1);
    assert_eq!(req.messages.len(), 4);
    assert!(matches!(req.messages[0].role, Role::System));
    match &req.messages[1].content[1] {
        ContentBlock::Image { source: ImageSource::Base64 { media_type, data } } => {
            assert_eq!(media_type, "image/jpeg");
            assert_eq!(data, "AAAA");
        }
        _ => panic!("expected an inline image"),
    }
    match &req.messages[2].content[0] {
        ContentBlock::ToolUse { id, input, .. } => {
            assert_eq!(id, "c1");
            assert_eq!(at(input, "a").as_u64(), Some(1));
        }
        _ => panic!("expected a tool use"),
    }
    match &req.messages[3].content[0] {
        ContentBlock::ToolResult { content, .. } => match &content[0] {
            ContentBlock::Text { text } => assert_eq!(text, "{\"ok\":true}"),
            _ => panic!("expected text"),
        },
        _ => panic!("expected a tool result"),
    }
    assert_eq!(req.tools.len(), 2);
    assert!(req.tools[1].builtin.is_some());
    assert_eq!(req.tools[1].name, "web_search");
    assert!(matches!(&req.tool_choice, Some(ToolChoice::Tool(n)) if n == "f"));
    assert_eq!(req.max_tokens, Some(50));
    assert_eq!(req.extra.len(), 1);
    assert_eq!(req.extra[0].0, "user");
}

#[test]
fn rejects_non_object_request_and_response() {
    assert!(OpenAiResponsesCodec.parse_request(doc("[1]")).is_err());
    assert!(OpenAiResponsesCodec.parse_response(doc("\"x\"")).is_err());
}

#[test]
fn unparsable_arguments_stay_a_string() {
    let body = doc(
        r#"{"input": [{"type": "function_call", "id": "x", "name": "f", "arguments": "{oops"}]}"#,
    );
    let req = OpenAiResponsesCodec.parse_request(body).unwrap();
    match &req.messages[0].content[0] {
        ContentBlock::ToolUse { id, input, .. } => {
            assert_eq!(id, "x");
            assert_eq!(input.as_str().unwrap(), "{oops");
        }
        _ => panic!("expected a tool use"),
    }
}

#[test]
fn decodes_output_and_status() {
    let body = doc(
        r#"{
            "id": "r1", "model": "m", "status": "completed",
            "output": [
                {"type": "reasoning", "summary": [{"text": "think "}, {"text": "more"}]},
                {"type": "message", "content": [{"type": "output_text", "text": "hi"}, {"text": ""}]},
                {"type": "function_call", "call_id": "c", "name": "f", "arguments": "{}"}
            ],
            "usage": {"input_tokens": 10, "output_tokens": 3, "input_tokens_details": {"cached_tokens": 4}}
        }"#,
    );
    let resp = OpenAiResponsesCodec.parse_response(body).unwrap();
    assert_eq!(resp.content.len(), 3);
    match &resp.content[0] {
        ContentBlock::Thinking { text, .. } => assert_eq!(text, "think more"),
        _ => panic!("expected thinking"),
    }
    assert!(matches!(resp.stop_reason, Some(StopReason::ToolUse)));
    assert_eq!(resp.usage.input_tokens, 10);
    assert_eq!(resp.usage.cache_read_input_tokens, 4);

    let failed = doc(r#"{"status": "failed", "error": {"message": "boom"}}"#);
    let resp = OpenAiResponsesCodec.parse_response(failed).unwrap();
    match resp.stop_reason {
        Some(StopReason::Other(m)) => assert_eq!(m, "error: boom"),
        _ => panic!("expected an error stop"),
    }
    let incomplete = doc(r#"{"status": "incomplete"}"#);
    let resp = OpenAiResponsesCodec.parse_response(incomplete).unwrap();
    assert!(matches!(resp.stop_reason, Some(StopReason::MaxTokens)));
}

#[test]
fn renders_request_and_gates_tool_choice_on_function_tools() {
    let body = doc(
        r#"{
            "model": "m",
            "input": [
                {"role": "assistant", "content": "done"},
                {"role": "user", "content": "again"}
            ],
            "tools": [{"type": "web_search"}],
            "tool_choice": "required",
            "parallel_tool_calls": false,
            "stream": true
        }"#,
    );
    let req = OpenAiResponsesCodec.parse_request(body).unwrap();
    let out = OpenAiResponsesCodec.render_request(&req).unwrap();
    assert!(out.get("tools").is_none());
    assert!(out.get("tool_choice").is_none());
    assert!(out.get("parallel_tool_calls").is_none());
    assert_eq!(at(&out, "stream").as_bool(), Some(true));
    let input = at(&out, "input").as_array().unwrap();
    assert_eq!(input.len(), 2);
    assert_eq!(at(&input[0], "role").as_str().unwrap(), "assistant");
    let parts = at(&input[1], "content").as_array().unwrap();
    assert_eq!(at(&parts[0], "type").as_str().unwrap(), "input_text");
}

#[test]
fn renders_response_with_message_first_and_usage_total() {
    let resp = ChatResponse {
        id: String::new(),
        model: String::new(),
        content: vec![
            ContentBlock::ToolUse { id: "c".to_owned(), name: "f".to_owned(), input: Json::Null },
            ContentBlock::Text { text: "a".to_owned() },
            ContentBlock::Text { text: "b".to_owned() },
        ],
        stop_reason: Some(StopReason::MaxTokens),
        usage: Usage {
            input_tokens: 5,
            output_tokens: 7,
            cache_creation_input_tokens: 0,
            cache_read_input_tokens: 2,
        },
    };
    let ctx = RequestCtx { model: "pub".to_owned(), stream: false };
    let out = OpenAiResponsesCodec.render_response(&resp, &ctx).unwrap();
    assert_eq!(at(&out, "id").as_str().unwrap(), "resp_litellm");
    assert_eq!(at(&out, "status").as_str().unwrap(), "incomplete");
    let output = at(&out, "output").as_array().unwrap();
    assert_eq!(at(&output[0], "type").as_str().unwrap(), "message");
    let content = at(&output[0], "content").as_array().unwrap();
    assert_eq!(at(&content[0], "text").as_str().unwrap(), "ab");
    assert_eq!(at(&output[1], "id").as_str().unwrap(), "fc_c");
    assert_eq!(at(&output[1], "arguments").as_str().unwrap(), "{}");
    let usage = at(&out, "usage");
    assert_eq!(at(usage, "total_tokens").as_u64(), Some(12));
    assert_eq!(at(at(usage, "input_tokens_details"), "cached_tokens").as_u64(), Some(2));
}

#[test]
fn stream_parser_closes_open_blocks_in_order_at_completion() {
    let mut p = OpenAiResponsesCodec.stream_parser();
    assert!(p.finish().is_empty());
    p.parse_event(&event(r#"{"type":"response.created","response":{"id":"r","model":"m"}}"#))
        .unwrap();
    let evs = p
        .parse_event(&event(
            r#"{"type":"response.output_item.added","output_index":3,"item":{"type":"function_call","call_id":"c","name":"f"}}"#,
        ))
        .unwrap();
    assert!(matches!(&evs[0], StreamEvent::ContentBlockStart { index: 3, .. }));
    let evs = p
        .parse_event(&event(
            r#"{"type":"response.content_part.added","output_index":1,"part":{"type":"output_text"}}"#,
        ))
        .unwrap();
    assert_eq!(evs.len(), 1);
    let again = p
        .parse_event(&event(
            r#"{"type":"response.content_part.added","output_index":1,"part":{"type":"output_text"}}"#,
        ))
        .unwrap();
    assert!(again.is_empty());
    let evs = p
        .parse_event(&event(
            r#"{"type":"response.completed","response":{"usage":{"input_tokens":2,"output_tokens":1}}}"#,
        ))
        .unwrap();
    assert_eq!(evs.len(), 4);
    assert!(matches!(evs[0], StreamEvent::ContentBlockStop { index: 1 }));
    assert!(matches!(evs[1], StreamEvent::ContentBlockStop { index: 3 }));
    match &evs[2] {
        StreamEvent::MessageDelta { stop_reason, usage } => {
            assert!(matches!(stop_reason, Some(StopReason::ToolUse)));
            assert_eq!(usage.unwrap().input_tokens, 2);
        }
        _ => panic!("expected a message delta"),
    }
    assert!(matches!(evs[3], StreamEvent::MessageStop));
    assert!(p.finish().is_empty());
}

#[test]
fn stream_renderer_buffers_items_and_reports_failure() {
    let ctx = RequestCtx { model: "pub".to_owned(), stream: true };
    let mut r = OpenAiResponsesCodec.stream_renderer(&ctx);
    r.render_event(&StreamEvent::MessageStart { id: String::new(), model: String::new() });
    let start = r.render_event(&StreamEvent::ContentBlockStart { index: 12, block: BlockStart::Text });
    let frames = frame_data(&start);
    assert_eq!(frames.len(), 2);
    assert_eq!(frames[0]["item"]["id"], "item_12");
    r.render_event(&StreamEvent::TextDelta { index: 12, text: "he".to_owned() });
    r.render_event(&StreamEvent::TextDelta { index: 12, text: "llo".to_owned() });
    let done = frame_data(&r.render_event(&StreamEvent::ContentBlockStop { index: 12 }));
    assert_eq!(done[0]["item"]["content"][0]["text"], "hello");
    let unknown = frame_data(&r.render_event(&StreamEvent::ContentBlockStop { index: 99 }));
    assert!(unknown[0]["item"].is_null());
    let none = r.render_event(&StreamEvent::MessageDelta {
        stop_reason: Some(StopReason::Other("bad".to_owned())),
        usage: None,
    });
    assert!(none.is_empty());
    let stop = frame_data(&r.render_event(&StreamEvent::MessageStop));
    assert_eq!(stop[0]["type"], "response.failed");
    assert_eq!(stop[0]["response"]["error"]["message"], "bad");
    assert_eq!(stop[0]["response"]["id"], "resp_litellm");
}

#[test]
fn streamed_failure_is_an_error_stop() {
    let mut p = OpenAiResponsesCodec.stream_parser();
    p.parse_event(&event(r#"{"type":"response.created","response":{"id":"r","model":"m"}}"#))
        .unwrap();
    let evs = p
        .parse_event(&event(
            r#"{"type":"response.failed","response":{"status":"failed","error":{"message":"boom"}}}"#,
        ))
        .unwrap();
    assert_eq!(evs.len(), 2);
    match &evs[0] {
        StreamEvent::MessageDelta { stop_reason: Some(StopReason::Other(m)), usage } => {
            assert_eq!(m, "error: boom");
            assert_eq!(usage.unwrap(), Usage::zero());
        }
        _ => panic!("expected an error stop"),
    }
    assert!(matches!(evs[1], StreamEvent::MessageStop));

    let mut q = OpenAiResponsesCodec.stream_parser();
    q.parse_event(&event(r#"{"type":"response.created","response":{}}"#)).unwrap();
    let evs = q.parse_event(&event(r#"{"type":"response.failed","response":{}}"#)).unwrap();
    assert!(matches!(
        &evs[0],
        StreamEvent::MessageDelta { stop_reason: Some(StopReason::Other(m)), .. }
            if m == "error: response failed"
    ));
}
