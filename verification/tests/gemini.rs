use litellm_rust::codec::ProtocolCodec;
use litellm_rust::codec::gemini::parts::{guess_image_mime, surrogate_id};
use litellm_rust::codec::gemini::GeminiCodec;
use litellm_rust::ir::{
    BlockStart, ChatResponse, ContentBlock, ImageSource, Role, StopReason, StreamEvent, ToolChoice,
    Usage,
};
use litellm_rust::json::Json;
use litellm_rust::sse::{SseEvent, StreamParser, StreamRenderer};
use litellm_rust::wire::RequestCtx;

fn to_json(v: serde_json::Value) -> Json {
    match v {
        serde_json::Value::Null => Json::Null,
        serde_json::Value::Bool(b) => Json::Bool(b),
        serde_json::Value::Number(n) => match (n.as_u64(), n.as_i64()) {
            (Some(u), _) => Json::UInt(u),
            (None, Some(i)) => Json::NegInt(i),
            (None, None) => Json::Float(n.to_string()),
        },
        serde_json::Value::String(s) => Json::Str(s),
        serde_json::Value::Array(a) => Json::Array(a.into_iter().map(to_json).collect()),
        serde_json::Value::Object(o) => {
            Json::Object(o.into_iter().map(|(k, v)| (k, to_json(v))).collect())
        }
    }
}

fn doc(text: &str) -> Json {
    to_json(serde_json::from_str(text).unwrap())
}

fn at<'a>(j: &'a Json, key: &str) -> &'a Json {
    j.get(key).unwrap()
}

fn frames(bytes: &[u8]) -> Vec<serde_json::Value> {
    let text = String::from_utf8(bytes.to_vec()).unwrap();
    text.split("\n\n")
        .filter(|f| !f.is_empty())
        .map(|f| serde_json::from_str(f.trim_start_matches("data: ")).unwrap())
        .collect()
}

#[test]
fn parses_contents_tools_and_generation_config() {
    let body = doc(
        r#"{
            "systemInstruction": {"parts": [{"text": "be "}, {"text": "brief"}]},
            "contents": [
                {"role": "user", "parts": [
                    {"text": "hi"},
                    {"inline_data": {"mime_type": "image/gif", "data": "R0"}},
                    {"fileData": {"fileUri": "gs://b/x.png"}}
                ]},
                {"role": "model", "parts": [
                    {"functionCall": {"name": "f", "args": {"a": 1}, "id": "c1"}},
                    {"thought": true, "text": "hmm"}
                ]},
                {"role": "user", "parts": [
                    {"functionResponse": {"name": "f", "response": {"ok": true}}}
                ]}
            ],
            "tools": [{"functionDeclarations": [{"name": "f"}], "googleSearch": {}}],
            "toolConfig": {"functionCallingConfig": {"mode": "any", "allowedFunctionNames": ["f"]}},
            "generationConfig": {
                "maxOutputTokens": 10, "topP": 0.9, "stopSequences": ["x", 3],
                "responseMimeType": "application/json",
                "thinkingConfig": {"thinkingBudget": 256}
            }
        }"#,
    );
    let req = GeminiCodec.parse_request(body).unwrap();
    assert_eq!(req.model, "");
    match &req.system[0] {
        ContentBlock::Text { text } => assert_eq!(text, "be brief"),
        _ => panic!("expected text"),
    }
    assert_eq!(req.messages.len(), 3);
    assert!(matches!(req.messages[1].role, Role::Assistant));
    match &req.messages[0].content[1] {
        ContentBlock::Image { source: ImageSource::Base64 { media_type, .. } } => {
            assert_eq!(media_type, "image/gif")
        }
        _ => panic!("expected an inline image"),
    }
    assert!(matches!(
        &req.messages[0].content[2],
        ContentBlock::Image { source: ImageSource::Url(u) } if u == "gs://b/x.png"
    ));
    assert!(matches!(&req.messages[1].content[1], ContentBlock::Thinking { .. }));
    match &req.messages[2].content[0] {
        ContentBlock::ToolResult { tool_use_id, content, .. } => {
            assert_eq!(tool_use_id, "f");
            assert!(matches!(&content[0], ContentBlock::Text { text } if text == "{\"ok\":true}"));
        }
        _ => panic!("expected a tool result"),
    }
    assert_eq!(req.tools.len(), 2);
    assert_eq!(req.tools[1].name, "googleSearch");
    assert!(matches!(&req.tool_choice, Some(ToolChoice::Tool(n)) if n == "f"));
    assert_eq!(req.max_tokens, Some(10));
    assert_eq!(req.stop, vec!["x".to_owned()]);
    assert!(req.response_format.is_some());
    assert_eq!(req.reasoning.unwrap().budget_tokens, Some(256));
}

#[test]
fn surrogate_ids_differ_by_ordinal_and_have_a_fixed_shape() {
    let args = Json::Object(Vec::new());
    let a = surrogate_id("f", &args, 0);
    let b = surrogate_id("f", &args, 1);
    assert_ne!(a, b);
    assert!(a.starts_with("call_"));
    assert_eq!(a.len(), 21);
    assert_eq!(a, surrogate_id("f", &args, 0));
}

#[test]
fn calls_without_id_get_a_surrogate() {
    let body = doc(
        r#"{"candidates": [{"content": {"parts": [
            {"text": "x"},
            {"functionCall": {"name": "f"}}
        ]}, "finishReason": "STOP"}], "modelVersion": "g-1",
        "usageMetadata": {"promptTokenCount": 7, "candidatesTokenCount": 2, "cachedContentTokenCount": 3}}"#,
    );
    let resp = GeminiCodec.parse_response(body).unwrap();
    assert_eq!(resp.model, "g-1");
    match &resp.content[1] {
        ContentBlock::ToolUse { id, .. } => {
            assert_eq!(id, &surrogate_id("f", &Json::Object(Vec::new()), 1));
        }
        _ => panic!("expected a tool use"),
    }
    assert!(matches!(resp.stop_reason, Some(StopReason::ToolUse)));
    assert_eq!(resp.usage.input_tokens, 7);
    assert_eq!(resp.usage.cache_read_input_tokens, 3);
}

#[test]
fn guesses_image_mime_from_the_path() {
    assert_eq!(guess_image_mime("https://x/a.PNG?v=1"), "image/png");
    assert_eq!(guess_image_mime("https://x/a.webp#f"), "image/webp");
    assert_eq!(guess_image_mime("https://x/a?b.gif"), "image/jpeg");
    assert_eq!(guess_image_mime("https://x/a.heic"), "image/heic");
}

#[test]
fn renders_contents_with_tool_names_and_coalesced_roles() {
    let body = doc(
        r#"{
            "contents": [
                {"role": "model", "parts": [{"functionCall": {"name": "lookup", "args": {}, "id": "c9"}}]},
                {"role": "user", "parts": [{"text": "a"}]},
                {"role": "user", "parts": [{"text": "b"}]}
            ],
            "tools": [{"functionDeclarations": [{"name": "lookup"}]}],
            "toolConfig": {"functionCallingConfig": {"mode": "ANY", "allowedFunctionNames": ["other"]}}
        }"#,
    );
    let mut req = GeminiCodec.parse_request(body).unwrap();
    req.messages[1].content.push(ContentBlock::ToolResult {
        tool_use_id: "c9".to_owned(),
        content: vec![ContentBlock::Text { text: "plain".to_owned() }],
        is_error: false,
    });
    let out = GeminiCodec.render_request(&req).unwrap();
    let contents = at(&out, "contents").as_array().unwrap();
    assert_eq!(contents.len(), 2);
    let user_parts = at(&contents[1], "parts").as_array().unwrap();
    assert_eq!(user_parts.len(), 3);
    let fr = at(&user_parts[1], "functionResponse");
    assert_eq!(at(fr, "name").as_str().unwrap(), "lookup");
    assert_eq!(at(at(fr, "response"), "result").as_str().unwrap(), "plain");
    assert!(out.get("tools").is_some());
    // the named choice targets an undeclared function, so no toolConfig.
    assert!(out.get("toolConfig").is_none());
    assert!(out.get("generationConfig").is_none());
}

#[test]
fn renders_error_envelope_and_finish_reason() {
    let ctx = RequestCtx { model: "m".to_owned(), stream: false };
    let mut resp = ChatResponse {
        id: String::new(),
        model: String::new(),
        content: vec![ContentBlock::Text { text: "t".to_owned() }],
        stop_reason: None,
        usage: Usage::zero(),
    };
    let out = GeminiCodec.render_response(&resp, &ctx).unwrap();
    let cand = &at(&out, "candidates").as_array().unwrap()[0];
    assert_eq!(at(cand, "finishReason").as_str().unwrap(), "STOP");
    resp.stop_reason = Some(StopReason::Other("down".to_owned()));
    let out = GeminiCodec.render_response(&resp, &ctx).unwrap();
    assert_eq!(at(at(&out, "error"), "code").as_u64(), Some(502));
}

#[test]
fn stream_parser_allocates_blocks_and_prefers_tool_use() {
    let mut p = GeminiCodec.stream_parser();
    let evs = p
        .parse_event(&SseEvent {
            event: None,
            data: r#"{"modelVersion":"g","candidates":[{"content":{"parts":[{"text":"a"},{"thought":true,"text":"t"},{"text":"b"},{"functionCall":{"name":"f","args":{"x":1},"id":"c"}}]},"finishReason":"STOP"}]}"#.to_owned(),
        })
        .unwrap();
    assert!(matches!(&evs[0], StreamEvent::MessageStart { model, .. } if model == "g"));
    assert!(matches!(evs[1], StreamEvent::ContentBlockStart { index: 0, block: BlockStart::Text }));
    assert!(matches!(evs[3], StreamEvent::ContentBlockStart { index: 1, block: BlockStart::Thinking }));
    assert!(matches!(evs[5], StreamEvent::TextDelta { index: 0, .. }));
    assert!(matches!(&evs[7], StreamEvent::ToolUseInputDelta { index: 2, partial_json } if partial_json == "{\"x\":1}"));
    let end = p.finish();
    assert!(matches!(end[0], StreamEvent::ContentBlockStop { index: 0 }));
    assert!(matches!(end[1], StreamEvent::ContentBlockStop { index: 1 }));
    assert!(matches!(&end[2], StreamEvent::MessageDelta { stop_reason: Some(StopReason::ToolUse), .. }));
    assert!(p.finish().is_empty());
}

#[test]
fn stream_parser_surfaces_errors_and_blocked_prompts() {
    let mut p = GeminiCodec.stream_parser();
    let evs = p
        .parse_event(&SseEvent { event: None, data: r#"{"error":{"message":"quota"}}"#.to_owned() })
        .unwrap();
    assert!(evs.is_empty());
    let end = p.finish();
    assert!(matches!(&end[0], StreamEvent::MessageDelta { stop_reason: Some(StopReason::Other(m)), .. } if m == "error: quota"));

    let mut p = GeminiCodec.stream_parser();
    p.parse_event(&SseEvent { event: None, data: r#"{"promptFeedback":{"blockReason":"SAFETY"}}"#.to_owned() })
        .unwrap();
    let end = p.finish();
    assert!(matches!(&end[0], StreamEvent::MessageDelta { stop_reason: Some(StopReason::ContentFilter), .. }));
}

#[test]
fn stream_renderer_sends_whole_calls_and_one_finish() {
    let ctx = RequestCtx { model: "m".to_owned(), stream: true };
    let mut r = GeminiCodec.stream_renderer(&ctx);
    assert!(r.render_event(&StreamEvent::ContentBlockStart {
        index: 4,
        block: BlockStart::ToolUse { id: "c".to_owned(), name: "f".to_owned() },
    })
    .is_empty());
    r.render_event(&StreamEvent::ToolUseInputDelta { index: 4, partial_json: "{\"a\":".to_owned() });
    r.render_event(&StreamEvent::ToolUseInputDelta { index: 4, partial_json: "2}".to_owned() });
    let call = frames(&r.render_event(&StreamEvent::ContentBlockStop { index: 4 }));
    assert_eq!(call[0]["candidates"][0]["content"]["parts"][0]["functionCall"]["args"]["a"], 2);
    let text = frames(&r.render_event(&StreamEvent::TextDelta { index: 0, text: "hi".to_owned() }));
    assert_eq!(text[0]["candidates"][0]["content"]["parts"][0]["text"], "hi");
    r.render_event(&StreamEvent::MessageDelta { stop_reason: Some(StopReason::MaxTokens), usage: None });
    let stop = frames(&r.render_event(&StreamEvent::MessageStop));
    assert_eq!(stop[0]["candidates"][0]["finishReason"], "MAX_TOKENS");
    assert!(r.finish().is_empty());
    let mut fresh = GeminiCodec.stream_renderer(&ctx);
    let fin = frames(&fresh.finish());
    assert_eq!(fin[0]["candidates"][0]["finishReason"], "STOP");
}
