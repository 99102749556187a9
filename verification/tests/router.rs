use litellm_rust::config::{GatewayConfig, LiteLlmParams, ModelEntry};
use litellm_rust::errors::GatewayError;
use litellm_rust::providers::{self, ProviderRegistry};
use litellm_rust::router::{Deployment, Router};
use litellm_rust::wire::WireFormat;

fn entry(name: &str, model: &str) -> ModelEntry {
    ModelEntry {
        model_name: name.to_owned(),
        litellm_params: LiteLlmParams {
            model: model.to_owned(),
            api_key: Some("sk".to_owned()),
            api_base: None,
            wire_api: None,
            extra: Default::default(),
        },
    }
}

fn registry() -> ProviderRegistry {
    let mut providers = ProviderRegistry::new();
    providers::register_all(&mut providers);
    providers
}

#[test]
fn resolves_model_to_upstream() {
    let providers = registry();
    let config = GatewayConfig {
        model_list: vec![entry("sonnet", "anthropic/sonnet-4-5")],
    };
    let router = Router::from_config(&config, &providers).unwrap();
    let route = router.resolve("sonnet").unwrap();
    assert_eq!(route.deployment.upstream_model, "sonnet-4-5");
    assert_eq!(route.deployment.provider_id, "anthropic");
}

#[test]
fn resolves_wildcard_model_to_anthropic_passthrough() {
    let providers = registry();
    let config = GatewayConfig { model_list: vec![entry("anthropic/*", "anthropic/*")] };
    let router = Router::from_config(&config, &providers).unwrap();
    let route = router.resolve("anthropic/opus-4-8").unwrap();
    assert_eq!(route.deployment.provider_id, "anthropic");
    assert_eq!(route.deployment.upstream_model, "opus-4-8");
}

#[test]
fn strips_provider_prefix_from_wildcard_model() {
    let providers = registry();
    let config = GatewayConfig { model_list: vec![entry("anthropic/*", "anthropic/*")] };
    let router = Router::from_config(&config, &providers).unwrap();
    let route = router.resolve("anthropic/opus-4-8").unwrap();
    assert_eq!(route.deployment.upstream_model, "opus-4-8");
}

#[test]
fn exact_route_takes_precedence_over_wildcard() {
    let providers = registry();
    let config = GatewayConfig {
        model_list: vec![
            entry("sonnet", "anthropic/sonnet-4-5"),
            entry("anthropic/*", "anthropic/*"),
        ],
    };
    let router = Router::from_config(&config, &providers).unwrap();
    let route = router.resolve("sonnet").unwrap();
    assert_eq!(route.deployment.upstream_model, "sonnet-4-5");
}

fn config_error(model_list: Vec<ModelEntry>) -> String {
    match Router::from_config(&GatewayConfig { model_list }, &registry()) {
        Err(GatewayError::InvalidConfig(m)) => m,
        other => panic!("expected an InvalidConfig error, got {:?}", other.map(|_| ())),
    }
}

#[test]
fn rejects_model_without_provider_prefix() {
    assert_eq!(
        config_error(vec![entry("x", "sonnet")]),
        "model must include provider prefix (e.g. anthropic/...), got sonnet"
    );
}

#[test]
fn rejects_model_without_name_after_prefix() {
    assert_eq!(
        config_error(vec![entry("x", "anthropic/  ")]),
        "model missing name after provider prefix, got anthropic/  "
    );
}

#[test]
fn rejects_unknown_provider_and_wire_api() {
    assert_eq!(config_error(vec![entry("x", "acme/m")]), "unsupported provider: acme");
    let mut e = entry("x", "anthropic/m");
    e.litellm_params.wire_api = Some("soap".to_owned());
    assert_eq!(config_error(vec![e]), "unknown wire_api: soap");
}

#[test]
fn rejects_duplicate_wildcard() {
    assert_eq!(
        config_error(vec![entry("anthropic/*", "anthropic/*"), entry("anthropic/*", "anthropic/*")]),
        "duplicate wildcard route for prefix anthropic"
    );
}

#[test]
fn unknown_model_and_gemini_bare_name_retry() {
    let providers = registry();
    let config = GatewayConfig { model_list: vec![entry("gemini/*", "gemini/*")] };
    let router = Router::from_config(&config, &providers).unwrap();
    match router.resolve("gemini-2.5-pro") {
        Err(GatewayError::UnknownModel(m)) => assert_eq!(m, "gemini-2.5-pro"),
        _ => panic!("bare name must not resolve without inbound context"),
    }
    let route = router.resolve_wire(WireFormat::Gemini, "gemini-2.5-pro").unwrap();
    assert_eq!(route.deployment.upstream_model, "gemini-2.5-pro");
    assert_eq!(route.deployment.wire, WireFormat::Gemini);
    assert!(router.resolve_wire(WireFormat::OpenAiChat, "gemini-2.5-pro").is_err());
}

#[test]
fn wire_api_override_and_default_base() {
    let providers = registry();
    let mut e = entry("gpt", "openai/gpt-5");
    e.litellm_params.wire_api = Some("  Chat ".to_owned());
    let router = Router::from_config(&GatewayConfig { model_list: vec![e] }, &providers).unwrap();
    let route = router.resolve("gpt").unwrap();
    assert_eq!(route.deployment.wire, WireFormat::OpenAiChat);
    assert_eq!(route.deployment.api_base, "https://api.openai.com");
    assert_eq!(route.deployment.api_key, "sk");
}

fn deployment(wire: WireFormat, base: &str) -> Deployment {
    Deployment {
        provider_id: "p".to_owned(),
        upstream_model: "m-1".to_owned(),
        api_base: base.to_owned(),
        api_key: String::new(),
        wire,
    }
}

#[test]
fn upstream_urls_per_wire_format() {
    assert_eq!(
        deployment(WireFormat::AnthropicMessages, "https://a.example//").upstream_url(false),
        "https://a.example/v1/messages"
    );
    assert_eq!(
        deployment(WireFormat::OpenAiChat, "https://a.example").upstream_url(true),
        "https://a.example/v1/chat/completions"
    );
    assert_eq!(
        deployment(WireFormat::OpenAiResponses, "https://a.example/").upstream_url(true),
        "https://a.example/v1/responses"
    );
    assert_eq!(
        deployment(WireFormat::Gemini, "https://g.example").upstream_url(false),
        "https://g.example/v1beta/models/m-1:generateContent"
    );
    assert_eq!(
        deployment(WireFormat::Gemini, "https://g.example").upstream_url(true),
        "https://g.example/v1beta/models/m-1:streamGenerateContent?alt=sse"
    );
}

#[test]
fn registry_register_then_get() {
    let mut r = ProviderRegistry::new();
    assert!(r.get("x").is_none());
    r.register("x", "https://one", WireFormat::Gemini);
    r.register("x", "https://two", WireFormat::OpenAiChat);
    let p = r.get("x").unwrap();
    assert_eq!(p.default_api_base, "https://two");
    assert_eq!(p.default_wire, WireFormat::OpenAiChat);
}

#[test]
fn wire_format_parse_is_trimmed_and_case_folded() {
    assert_eq!(WireFormat::parse(" Anthropic_Messages\n"), Some(WireFormat::AnthropicMessages));
    assert_eq!(WireFormat::parse("google"), Some(WireFormat::Gemini));
    assert_eq!(WireFormat::parse("openai_responses"), Some(WireFormat::OpenAiResponses));
    assert_eq!(WireFormat::parse("chat_completions"), Some(WireFormat::OpenAiChat));
    assert_eq!(WireFormat::parse("grpc"), None);
}
