use litellm_rust::agents::cursor::CursorStreamState;
use litellm_rust::agents::gemini_interaction::{
    input_from_events, interaction_body, interaction_is_terminal, GeminiContext,
};
use litellm_rust::agents::opencode::{message_body, normalize_event, parts_from_events, session_body};
use litellm_rust::agents::{AgentEvent, AgentSdkError};
use litellm_rust::json::Json;
use serde_json::Value;

fn val(text: &str) -> Value {
    serde_json::from_str(text).unwrap()
}

fn to_json(v: Value) -> Json {
    match v {
        Value::Null => Json::Null,
        Value::Bool(b) => Json::Bool(b),
        Value::Number(n) => match (n.as_u64(), n.as_i64()) {
            (Some(u), _) => Json::UInt(u),
            (None, Some(i)) => Json::NegInt(i),
            (None, None) => Json::Float(n.to_string()),
        },
        Value::String(s) => Json::Str(s),
        Value::Array(a) => Json::Array(a.into_iter().map(to_json).collect()),
        Value::Object(o) => Json::Object(o.into_iter().map(|(k, v)| (k, to_json(v))).collect()),
    }
}

fn to_value(j: &Json) -> Value {
    match j {
        Json::Null => Value::Null,
        Json::Bool(b) => Value::Bool(*b),
        Json::UInt(n) => Value::from(*n),
        Json::NegInt(n) => Value::from(*n),
        Json::Float(s) => serde_json::from_str(s).unwrap(),
        Json::Str(s) => Value::String(s.clone()),
        Json::Array(a) => Value::Array(a.iter().map(to_value).collect()),
        Json::Object(o) => {
            Value::Object(o.iter().map(|(k, v)| (k.clone(), to_value(v))).collect())
        }
    }
}

fn event(event_type: &str, data: Value) -> AgentEvent {
    let data = match to_json(data) {
        Json::Object(entries) => entries,
        _ => panic!("event data must be an object"),
    };
    AgentEvent { event_type: event_type.to_owned(), data }
}

fn summary(events: &[AgentEvent]) -> Vec<(String, Value)> {
    events
        .iter()
        .map(|e| (e.event_type.clone(), to_value(&Json::Object(e.data.clone()))))
        .collect()
}

#[test]
fn cursor_gathers_text_until_a_tool_call() {
    let mut s = CursorStreamState::new();
    assert!(s.normalize(event("assistant", val(r#"{"text": "Hel"}"#))).is_empty());
    assert!(s.normalize(event("assistant", val(r#"{"text": "lo"}"#))).is_empty());
    let out = s.normalize(event(
        "tool_call",
        val(r#"{"callId": "c1", "status": "running", "args": {"path": "a"}, "name": "read"}"#),
    ));
    assert_eq!(
        summary(&out),
        vec![
            (
                "agent.message".to_owned(),
                val(r#"{"content": [{"type": "text", "text": "Hello"}]}"#)
            ),
            (
                "agent.tool_use".to_owned(),
                val(r#"{"id": "c1", "input": {"path": "a"}, "name": "read"}"#)
            ),
        ]
    );
    // The completed call is not announced again; its result follows.
    let out = s.normalize(event(
        "tool_call",
        val(r#"{"callId": "c1", "status": "completed", "result": {"ok": true}}"#),
    ));
    assert_eq!(
        summary(&out),
        vec![(
            "agent.tool_result".to_owned(),
            val(r#"{"tool_use_id": "c1", "content": [{"type": "text", "text": "{\"ok\":true}"}]}"#)
        )]
    );
}

#[test]
fn cursor_notices_come_once_and_finish_flushes() {
    let mut s = CursorStreamState::new();
    assert_eq!(summary(&s.normalize(event("thinking", val(r#"{}"#)))).len(), 1);
    assert!(s.normalize(event("thinking", val(r#"{}"#))).is_empty());
    let running = s.normalize(event("status", val(r#"{"status": "RUNNING"}"#)));
    assert_eq!(summary(&running), vec![("session.status_running".to_owned(), val(r#"{}"#))]);
    assert!(s.normalize(event("status", val(r#"{"status": "RUNNING"}"#))).is_empty());
    s.normalize(event("assistant", val(r#"{"text": "done"}"#)));
    let out = s.normalize(event("result", val(r#"{"status": "FINISHED"}"#)));
    assert_eq!(
        summary(&out),
        vec![
            ("agent.message".to_owned(), val(r#"{"content": [{"type": "text", "text": "done"}]}"#)),
            ("session.status_idle".to_owned(), val(r#"{"stop_reason": {"type": "end_turn"}}"#)),
        ]
    );
    assert!(s.flush_agent_message().is_none());
}

#[test]
fn cursor_errors_and_completed_calls_without_a_running_notice() {
    let mut s = CursorStreamState::new();
    let out = s.normalize(event("tool_call", val(r#"{"callId": "c9", "status": "completed"}"#)));
    assert_eq!(
        summary(&out),
        vec![
            ("agent.tool_use".to_owned(), val(r#"{"id": "c9", "input": {}}"#)),
            ("agent.tool_result".to_owned(), val(r#"{"tool_use_id": "c9"}"#)),
        ]
    );
    let out = s.normalize(event("error", val(r#"{"message": "boom"}"#)));
    assert_eq!(summary(&out), vec![("session.error".to_owned(), val(r#"{"message": "boom"}"#))]);
    let out = s.normalize(event("status", val(r#"{"status": "EXPIRED"}"#)));
    assert_eq!(summary(&out), vec![("session.error".to_owned(), val(r#"{"status": "EXPIRED"}"#))]);
    assert!(s.normalize(event("heartbeat", val(r#"{}"#))).is_empty());
}

#[test]
fn opencode_session_body_takes_resources() {
    let b = session_body("t".to_owned(), Some(to_json(val(r#"{"dir": "/x", "title": "u"}"#))));
    assert_eq!(to_value(&b), val(r#"{"title": "u", "dir": "/x"}"#));
    let b = session_body("t".to_owned(), Some(Json::Str("no".to_owned())));
    assert_eq!(to_value(&b), val(r#"{"title": "t"}"#));
}

#[test]
fn opencode_message_parts() {
    let events = vec![
        to_json(val(r#"{"type": "user.message", "content": "hi"}"#)),
        to_json(val(r#"{"type": "agent.message", "content": "skip"}"#)),
        to_json(val(r#"{"type": "user.message", "content": [ "a", {"type": "text"}, {"type": "image", "url": "u"}, 7 ]}"#)),
    ];
    let body = message_body(&events).unwrap();
    assert_eq!(
        to_value(&body),
        val(r#"{"parts": [ {"type": "text", "text": "hi"}, {"type": "text", "text": "a"}, {"type": "text", "text": ""}, {"type": "image", "url": "u"} ]}"#)
    );
    match parts_from_events(&[to_json(val(r#"{"type": "user.message"}"#))]) {
        Err(AgentSdkError::InvalidRequest(m)) => {
            assert_eq!(m, "opencode runtime requires at least one user.message content part")
        }
        _ => panic!("expected an invalid request"),
    }
}

#[test]
fn opencode_stream_keeps_to_its_session() {
    assert!(normalize_event("s1", event("x", val(r#"{"sessionID": "s2"}"#))).is_none());
    let idle = normalize_event("s1", event("session.idle", val(r#"{"sessionID": "s1"}"#))).unwrap();
    assert_eq!(idle.event_type, "session.status_idle");
    assert_eq!(
        to_value(&Json::Object(idle.data)),
        val(r#"{"sessionID": "s1", "stop_reason": {"type": "end_turn"}}"#)
    );
    let part = normalize_event(
        "s1",
        event("message.part.delta", val(r#"{"part": {"sessionID": "s1", "text": "yo"}}"#)),
    )
    .unwrap();
    assert_eq!(part.event_type, "assistant_response");
    assert_eq!(to_value(&Json::Object(part.data)), val(r#"{"text": "yo", "sessionID": "s1"}"#));
    assert!(normalize_event("s1", event("message.part.updated", val(r#"{"session_id": "s1"}"#)))
        .is_none());
}

#[test]
fn gemini_interaction_input_and_body() {
    let one = vec![to_json(val(r#"{"type": "user.message", "content": "hello"}"#))];
    assert_eq!(to_value(&input_from_events(&one).unwrap()), val(r#""hello""#));
    let many = vec![to_json(val(r#"{"type": "user.message", "content": ["a", {"k": 1}, 3]}"#))];
    assert_eq!(
        to_value(&input_from_events(&many).unwrap()),
        val(r#"[{"type": "text", "text": "a"}, {"k": 1}]"#)
    );
    let ctx = GeminiContext {
        agent_id: "ag".to_owned(),
        environment_id: "env".to_owned(),
        interaction_id: Some("i0".to_owned()),
    };
    let body = interaction_body(&ctx, &one).unwrap();
    assert_eq!(
        to_value(&body),
        val(r#"{ "agent": "ag", "input": "hello", "environment": "env", "store": true, "previous_interaction_id": "i0" }"#)
    );
    assert!(matches!(
        interaction_body(&ctx, &[]),
        Err(AgentSdkError::InvalidRequest(_))
    ));
    assert!(interaction_is_terminal(&to_json(val(r#"{"status": "budget_exceeded"}"#))));
    assert!(!interaction_is_terminal(&to_json(val(r#"{"status": "in_progress"}"#))));
}
