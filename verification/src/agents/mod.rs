//! Managed-agent runtimes: the events a runtime streams, the errors of the
//! agent SDK, and the request bodies and event streams of each runtime.
pub mod cursor;
pub mod gemini_interaction;
pub mod opencode;

use vstd::prelude::*;
use crate::json::{Json, JsonV, json_view, lemma_view_entries, lemma_view_items, view_entries, view_items};
use crate::text::owned;

verus! {

/// One event of an agent session: its type and its data, an object's members.
pub struct AgentEvent {
    pub event_type: String,
    pub data: Vec<(String, Json)>,
}

pub struct AgentEventV {
    pub event_type: Seq<char>,
    pub data: Seq<(Seq<char>, JsonV)>,
}

impl View for AgentEvent {
    type V = AgentEventV;

    open spec fn view(&self) -> AgentEventV {
        AgentEventV { event_type: self.event_type@, data: view_entries(self.data@) }
    }
}

pub open spec fn agent_events_view(v: Seq<AgentEvent>) -> Seq<AgentEventV> {
    v.map_values(|e: AgentEvent| e@)
}

pub open spec fn opt_event_view(o: Option<AgentEvent>) -> Option<AgentEventV> {
    match o {
        Some(e) => Some(e@),
        None => None,
    }
}

/// Errors of the managed-agent SDK. What the HTTP client, serde_json and the
/// UTF-8 decoder report is carried as its message; a provider's refusal as
/// its status code and body.
#[derive(Debug)]
pub enum AgentSdkError {
    UnsupportedRuntime(String),
    NoRuntimesConfigured,
    RuntimeRequired,
    RuntimeNotConfigured(String),
    Provider { status: u16, body: String },
    MissingId,
    MissingField(String),
    InvalidRequest(String),
    StateLock,
    Http(String),
    Json(String),
    Utf8(String),
}

/// The view of one member is that member.
pub proof fn lemma_one_entry(v: Seq<(String, Json)>)
    requires
        v.len() == 1,
    ensures
        view_entries(v) == seq![(v[0].0@, json_view(v[0].1))],
{
    lemma_view_entries(v);
    assert(view_entries(v) =~= seq![(v[0].0@, json_view(v[0].1))]);
}

/// The view of one item is that item.
pub proof fn lemma_one_item(v: Seq<Json>)
    requires
        v.len() == 1,
    ensures
        view_items(v) == seq![json_view(v[0])],
{
    lemma_view_items(v);
    assert(view_items(v) =~= seq![json_view(v[0])]);
}

pub enum AgentSdkErrorV {
    UnsupportedRuntime(Seq<char>),
    NoRuntimesConfigured,
    RuntimeRequired,
    RuntimeNotConfigured(Seq<char>),
    Provider { status: u16, body: Seq<char> },
    MissingId,
    MissingField(Seq<char>),
    InvalidRequest(Seq<char>),
    StateLock,
    Http(Seq<char>),
    Json(Seq<char>),
    Utf8(Seq<char>),
}

impl View for AgentSdkError {
    type V = AgentSdkErrorV;

    open spec fn view(&self) -> AgentSdkErrorV {
        match self {
            AgentSdkError::UnsupportedRuntime(s) => AgentSdkErrorV::UnsupportedRuntime(s@),
            AgentSdkError::NoRuntimesConfigured => AgentSdkErrorV::NoRuntimesConfigured,
            AgentSdkError::RuntimeRequired => AgentSdkErrorV::RuntimeRequired,
            AgentSdkError::RuntimeNotConfigured(s) => AgentSdkErrorV::RuntimeNotConfigured(s@),
            AgentSdkError::Provider { status, body } => AgentSdkErrorV::Provider {
                status: *status,
                body: body@,
            },
            AgentSdkError::MissingId => AgentSdkErrorV::MissingId,
            AgentSdkError::MissingField(s) => AgentSdkErrorV::MissingField(s@),
            AgentSdkError::InvalidRequest(s) => AgentSdkErrorV::InvalidRequest(s@),
            AgentSdkError::StateLock => AgentSdkErrorV::StateLock,
            AgentSdkError::Http(s) => AgentSdkErrorV::Http(s@),
            AgentSdkError::Json(s) => AgentSdkErrorV::Json(s@),
            AgentSdkError::Utf8(s) => AgentSdkErrorV::Utf8(s@),
        }
    }
}

/// An event of the given type.
pub open spec fn simple_event_spec(event_type: Seq<char>, data: Seq<(Seq<char>, JsonV)>) -> AgentEventV {
    AgentEventV { event_type, data }
}

pub fn simple_event(event_type: &str, data: Vec<(String, Json)>) -> (r: AgentEvent)
    ensures
        r@ == simple_event_spec(event_type@, view_entries(data@)),
{
    AgentEvent { event_type: owned(event_type), data }
}

/// A text content part: `{"type": "text", "text": text}`.
pub open spec fn text_part_spec(text: Seq<char>) -> JsonV {
    JsonV::empty_object().set("type"@, JsonV::Str("text"@)).set("text"@, JsonV::Str(text))
}

pub fn text_part(text: &str) -> (r: Json)
    ensures
        r@ == text_part_spec(text@),
{
    Json::object().set("type", Json::str("text")).set("text", Json::str(text))
}

} // verus!
