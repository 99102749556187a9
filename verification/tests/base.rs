use litellm_rust::errors::GatewayError;
use litellm_rust::headers::Headers;
use litellm_rust::json::Json;
use litellm_rust::providers::base::{
    provider_request, BaseAnthropicMessagesTransformation, BaseOpenAiResponsesTransformation,
};
use litellm_rust::router::Deployment;
use litellm_rust::wire::WireFormat;

fn to_json(v: serde_json::Value) -> Json {
    match v {
        serde_json::Value::Null => Json::Null,
        serde_json::Value::Bool(b) => Json::Bool(b),
        serde_json::Value::Number(n) => match (n.as_u64(), n.as_i64()) {
            (Some(u), _) => Json::UInt(u),
            (None, Some(i)) => Json::NegInt(i),
            (None, None) => Json::Float(n.to_string()),
        },
        serde_json::Value::String(s) => Json::Str(s),
        serde_json::Value::Array(a) => Json::Array(a.into_iter().map(to_json).collect()),
        serde_json::Value::Object(o) => {
            Json::Object(o.into_iter().map(|(k, v)| (k, to_json(v))).collect())
        }
    }
}

fn doc(text: &str) -> Json {
    to_json(serde_json::from_str(text).unwrap())
}

fn deployment() -> Deployment {
    Deployment {
        provider_id: "p".to_owned(),
        upstream_model: "up-model".to_owned(),
        api_base: "https://x".to_owned(),
        api_key: "k".to_owned(),
        wire: WireFormat::AnthropicMessages,
    }
}

/// A provider that sends its key as `x-key`, or refuses an empty key.
struct KeyedProvider;

impl KeyedProvider {
    fn keyed(deployment: &Deployment) -> Result<Headers, GatewayError> {
        if deployment.api_key.is_empty() {
            return Err(GatewayError::InvalidConfig("invalid api_key".to_owned()));
        }
        let mut h = Headers::new();
        h.insert("x-key", deployment.api_key.as_bytes().to_vec());
        Ok(h)
    }
}

impl BaseAnthropicMessagesTransformation for KeyedProvider {
    fn validate_environment(
        &self,
        deployment: &Deployment,
        _inbound_headers: &Headers,
    ) -> Result<Headers, GatewayError> {
        Self::keyed(deployment)
    }
}

impl BaseOpenAiResponsesTransformation for KeyedProvider {
    fn validate_environment(
        &self,
        deployment: &Deployment,
        _inbound_headers: &Headers,
    ) -> Result<Headers, GatewayError> {
        Self::keyed(deployment)
    }
}

fn sent(bytes: &[u8]) -> serde_json::Value {
    serde_json::from_slice(bytes).unwrap()
}

#[test]
fn anthropic_base_sets_model_and_reads_stream_flag() {
    let req = BaseAnthropicMessagesTransformation::transform_anthropic_messages_request(
        &KeyedProvider,
        doc(r#"{"model": "client", "stream": true, "messages": []}"#),
        &deployment(),
        &Headers::new(),
    )
    .unwrap();
    assert!(req.stream);
    assert_eq!(sent(&req.body)["model"], "up-model");
    assert_eq!(req.headers.get("x-key"), Some(b"k".to_vec()));

    let mut d = deployment();
    d.api_key = String::new();
    assert!(matches!(
        BaseAnthropicMessagesTransformation::transform_anthropic_messages_request(
            &KeyedProvider,
            doc(r#"{"messages": []}"#),
            &d,
            &Headers::new(),
        ),
        Err(GatewayError::InvalidConfig(_))
    ));
}

#[test]
fn responses_base_normalizes_custom_tool_calls() {
    let req = BaseOpenAiResponsesTransformation::transform_openai_responses_request(
        &KeyedProvider,
        doc(r#"{"input": [{"type": "custom_tool_call", "namespace": "n", "name": "t"}]}"#),
        &deployment(),
        &Headers::new(),
    )
    .unwrap();
    assert!(!req.stream);
    let body = sent(&req.body);
    assert_eq!(body["model"], "up-model");
    assert!(body["input"][0].get("namespace").is_none());
    assert_eq!(body["input"][0]["name"], "t");
    assert!(!KeyedProvider.supports_native_file_search());
    assert!(!KeyedProvider.supports_native_websocket());
    assert!(!KeyedProvider.should_fake_stream(Some("m"), Some(true)));
}

#[test]
fn base_response_headers_keep_request_ids() {
    let upstream = Headers::from_entries(vec![
        ("content-type".to_owned(), b"application/json; charset=utf-8".to_vec()),
        ("request-id".to_owned(), b"req_1".to_vec()),
        ("x-request-id".to_owned(), b"req_2".to_vec()),
    ]);
    let a = KeyedProvider.transform_anthropic_messages_response_headers(&upstream, false);
    assert_eq!(a.get("request-id"), Some(b"req_1".to_vec()));
    assert_eq!(a.get("x-request-id"), None);
    assert_eq!(a.get("content-type"), Some(b"application/json; charset=utf-8".to_vec()));
    let o = KeyedProvider.transform_openai_responses_response_headers(&upstream, true);
    assert_eq!(o.get("x-request-id"), Some(b"req_2".to_vec()));
    assert_eq!(o.get("content-type"), Some(b"text/event-stream".to_vec()));
}

#[test]
fn provider_request_passes_the_header_error_through() {
    let err = provider_request(
        doc(r#"{"stream": true}"#),
        Err(GatewayError::InvalidConfig("bad".to_owned())),
    );
    assert!(matches!(err, Err(GatewayError::InvalidConfig(ref m)) if m == "bad"));
    let mut h = Headers::new();
    h.insert("x", b"y".to_vec());
    let ok = provider_request(doc(r#"{"stream": true, "model": "m"}"#), Ok(h)).unwrap();
    assert!(ok.stream);
    assert_eq!(sent(&ok.body)["model"], "m");
    assert_eq!(ok.headers.get("x"), Some(b"y".to_vec()));
}
