use litellm_rust::codec::ProtocolCodec;
use litellm_rust::codec::anthropic::AnthropicCodec;
use litellm_rust::codec::gemini::GeminiCodec;
use litellm_rust::codec::openai_chat::OpenAiChatCodec;
use litellm_rust::codec::openai_responses::OpenAiResponsesCodec;
use litellm_rust::errors::GatewayError;
use litellm_rust::headers::Headers;
use litellm_rust::json::Json;
use litellm_rust::providers::transformation::{
    normalize_responses_api_request, AnthropicTransformation, OpenAiResponsesTransformation,
};
use litellm_rust::router::Deployment;
use litellm_rust::wire::WireFormat;

fn to_json(v: serde_json::Value) -> Json {
    match v {
        serde_json::Value::Null => Json::Null,
        serde_json::Value::Bool(b) => Json::Bool(b),
        serde_json::Value::Number(n) => match (n.as_u64(), n.as_i64()) {
            (Some(u), _) => Json::UInt(u),
            (None, Some(i)) => Json::NegInt(i),
            (None, None) => Json::Float(n.to_string()),
        },
        serde_json::Value::String(s) => Json::Str(s),
        serde_json::Value::Array(a) => Json::Array(a.into_iter().map(to_json).collect()),
        serde_json::Value::Object(o) => {
            Json::Object(o.into_iter().map(|(k, v)| (k, to_json(v))).collect())
        }
    }
}

fn doc(text: &str) -> Json {
    to_json(serde_json::from_str(text).unwrap())
}

fn deployment() -> Deployment {
    Deployment {
        provider_id: "openai".to_owned(),
        upstream_model: "gpt-5.5".to_owned(),
        api_base: "https://api.openai.com".to_owned(),
        api_key: "sk-upstream".to_owned(),
        wire: WireFormat::OpenAiResponses,
    }
}

fn header(h: &Headers, name: &str) -> Option<String> {
    h.get(name).map(|v| String::from_utf8(v).unwrap())
}

fn headers(pairs: &[(&str, &str)]) -> Headers {
    Headers::from_entries(
        pairs.iter().map(|(n, v)| ((*n).to_owned(), v.as_bytes().to_vec())).collect(),
    )
}

#[test]
fn rewrites_model_and_sets_bearer_auth() {
    let req = OpenAiResponsesTransformation
        .transform_request(doc(r#"{"model": "gpt-codex", "input": []}"#), &deployment(), &Headers::new())
        .unwrap();
    let body: serde_json::Value = serde_json::from_slice(&req.body).unwrap();
    assert_eq!(body["model"], "gpt-5.5");
    assert_eq!(header(&req.headers, "authorization").unwrap(), "Bearer sk-upstream");
    assert!(!req.stream);
}

#[test]
fn detects_stream_flag() {
    let req = OpenAiResponsesTransformation
        .transform_request(doc(r#"{"model": "gpt-5.5", "stream": true}"#), &deployment(), &Headers::new())
        .unwrap();
    assert!(req.stream);
}

#[test]
fn forwards_codex_headers() {
    let inbound = headers(&[("originator", "codex_exec"), ("session-id", "abc")]);
    let req = OpenAiResponsesTransformation
        .transform_request(doc(r#"{"model": "gpt-5.5"}"#), &deployment(), &inbound)
        .unwrap();
    assert_eq!(header(&req.headers, "originator").unwrap(), "codex_exec");
    assert_eq!(header(&req.headers, "session-id").unwrap(), "abc");
}

#[test]
fn streaming_response_is_event_stream() {
    let headers = OpenAiResponsesTransformation.transform_response_headers(&Headers::new(), true);
    assert_eq!(header(&headers, "content-type").unwrap(), "text/event-stream");
}

#[test]
fn anthropic_passthrough_defaults_version_and_keeps_beta() {
    let inbound = headers(&[("anthropic-beta", "tools-1")]);
    let req = AnthropicTransformation
        .transform_request(Json::Null, &deployment(), &inbound)
        .unwrap();
    let body: serde_json::Value = serde_json::from_slice(&req.body).unwrap();
    assert_eq!(body["model"], "gpt-5.5");
    assert_eq!(header(&req.headers, "x-api-key").unwrap(), "sk-upstream");
    assert_eq!(header(&req.headers, "anthropic-version").unwrap(), "2023-06-01");
    assert_eq!(header(&req.headers, "anthropic-beta").unwrap(), "tools-1");
    let upstream = headers(&[("content-type", "application/x"), ("request-id", "r1")]);
    let back = AnthropicTransformation.transform_response_headers(&upstream, false);
    assert_eq!(header(&back, "content-type").unwrap(), "application/x");
    assert_eq!(header(&back, "request-id").unwrap(), "r1");
}

#[test]
fn invalid_api_key_is_a_config_error() {
    let mut d = deployment();
    d.api_key = "bad\nkey".to_owned();
    let err = OpenAiResponsesTransformation
        .transform_request(doc("{}"), &d, &Headers::new())
        .err()
        .unwrap();
    assert!(matches!(err, GatewayError::InvalidConfig(ref m) if m == "invalid api_key"));
    assert!(AnthropicCodec.outbound_headers(&d, &Headers::new()).is_err());
    assert!(GeminiCodec.outbound_headers(&d, &Headers::new()).is_err());
}

#[test]
fn codec_headers_per_protocol() {
    let d = deployment();
    let h = OpenAiChatCodec.outbound_headers(&d, &Headers::new()).unwrap();
    assert_eq!(header(&h, "authorization").unwrap(), "Bearer sk-upstream");
    assert_eq!(header(&h, "content-type").unwrap(), "application/json");
    let h = GeminiCodec.outbound_headers(&d, &Headers::new()).unwrap();
    assert_eq!(header(&h, "x-goog-api-key").unwrap(), "sk-upstream");
    let upstream = headers(&[("x-request-id", "q")]);
    let back = OpenAiChatCodec.response_headers(&upstream, false);
    assert_eq!(header(&back, "content-type").unwrap(), "application/json");
    assert_eq!(header(&back, "x-request-id").unwrap(), "q");
    let back = GeminiCodec.response_headers(&upstream, true);
    assert!(header(&back, "x-request-id").is_none());
    assert_eq!(OpenAiResponsesCodec.cache_key_headers(), vec!["x-codex-beta-features"]);
    assert!(AnthropicCodec.cache_key_headers().is_empty());
}

#[test]
fn header_insert_replaces_every_entry_of_a_name() {
    let mut h = headers(&[("a", "1"), ("b", "2"), ("a", "3")]);
    assert_eq!(header(&h, "a").unwrap(), "1");
    h.insert("a", b"4".to_vec());
    assert_eq!(h.entries().len(), 2);
    assert_eq!(header(&h, "a").unwrap(), "4");
}

#[test]
fn normalizes_custom_tool_calls() {
    let body = doc(
        r#"{"input": [{"type": "custom_tool_call", "namespace": "n", "name": "x"}, {"type": "message", "namespace": "k"}]}"#,
    );
    let out = normalize_responses_api_request(body);
    let items = out.get("input").unwrap().as_array().unwrap();
    assert!(items[0].get("namespace").is_none());
    assert!(items[0].get("name").is_some());
    assert!(items[1].get("namespace").is_some());
}
