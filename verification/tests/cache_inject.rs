use litellm_rust::codec::cache_inject::auto_inject_anthropic_breakpoints;
use litellm_rust::ir::{CacheMarkers, ChatRequest, ContentBlock, Message, Role, ToolDef};
use litellm_rust::json::Json;

fn text_block(n: usize) -> ContentBlock {
    ContentBlock::Text { text: "x".repeat(n) }
}

fn user_msg(n: usize) -> Message {
    Message { role: Role::User, content: vec![text_block(n)] }
}

fn tool(n: usize) -> ToolDef {
    ToolDef {
        name: "x".repeat(n),
        description: None,
        parameters: Json::Object(vec![("type".to_owned(), Json::Str("object".to_owned()))]),
        builtin: None,
    }
}

fn request() -> ChatRequest {
    ChatRequest {
        model: String::new(),
        system: Vec::new(),
        messages: Vec::new(),
        tools: Vec::new(),
        tool_choice: None,
        cache: CacheMarkers::new(),
        parallel_tool_calls: None,
        response_format: None,
        reasoning: None,
        max_tokens: None,
        temperature: None,
        top_p: None,
        stop: Vec::new(),
        stream: false,
        extra: Vec::new(),
    }
}

#[test]
fn skips_when_below_threshold() {
    let mut req = request();
    req.system = vec![text_block(5)];
    req.messages = vec![user_msg(5)];
    // chars_per_token=1, min_tokens=100: 10 chars in all is far below.
    auto_inject_anthropic_breakpoints(&mut req, 4, 100, 1);
    assert!(req.cache.is_empty());
}

#[test]
fn marks_tools_system_and_tail_message() {
    let mut req = request();
    req.tools = vec![tool(50)];
    req.system = vec![text_block(50)];
    req.messages = vec![user_msg(50), user_msg(50)];
    auto_inject_anthropic_breakpoints(&mut req, 4, 10, 1);
    assert!(req.cache.tools);
    assert!(req.cache.system);
    assert_eq!(req.cache.messages, vec![1]);
}

#[test]
fn never_stacks_on_client_breakpoints() {
    let mut req = request();
    req.system = vec![text_block(500)];
    req.cache.system = true;
    auto_inject_anthropic_breakpoints(&mut req, 4, 1, 1);
    assert!(req.cache.system);
    assert!(!req.cache.tools);
    assert!(req.cache.messages.is_empty());
}

#[test]
fn respects_breakpoint_budget() {
    let mut req = request();
    req.tools = vec![tool(50)];
    req.system = vec![text_block(50)];
    req.messages = vec![user_msg(50)];
    // a budget of 1: only the tools layer gets the single breakpoint.
    auto_inject_anthropic_breakpoints(&mut req, 1, 10, 1);
    assert!(req.cache.tools);
    assert!(!req.cache.system);
    assert!(req.cache.messages.is_empty());
}

#[test]
fn adds_anchor_for_long_history() {
    let mut req = request();
    req.messages = (0..30).map(|_| user_msg(50)).collect();
    auto_inject_anthropic_breakpoints(&mut req, 4, 10, 1);
    assert_eq!(req.cache.messages, vec![15, 29]);
}

#[test]
fn zero_budget_or_zero_rate_behave() {
    let mut req = request();
    req.messages = vec![user_msg(50)];
    auto_inject_anthropic_breakpoints(&mut req, 0, 10, 1);
    assert!(req.cache.is_empty());
    // a rate of 0 characters per token counts as 1.
    auto_inject_anthropic_breakpoints(&mut req, 4, 50, 0);
    assert_eq!(req.cache.messages, vec![0]);
}

#[test]
fn tool_size_counts_rendered_schema() {
    // name "ab" (2) + schema {"type":"object"} (17) = 19 bytes.
    let mut req = request();
    req.tools = vec![tool(2)];
    auto_inject_anthropic_breakpoints(&mut req, 4, 19, 1);
    assert!(req.cache.tools);
    let mut req = request();
    req.tools = vec![tool(2)];
    auto_inject_anthropic_breakpoints(&mut req, 4, 20, 1);
    assert!(!req.cache.tools);
}
