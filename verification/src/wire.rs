//! The wire formats the gateway speaks, and the per-request context codecs
//! render with.
use vstd::prelude::*;
use crate::text::{str_eq, trim, to_ascii_lower, trim_seq, lower_seq};

verus! {

/// The four wire formats the gateway can speak, inbound and outbound.
#[derive(Clone, Copy, Debug, PartialEq, Eq, Structural)]
pub enum WireFormat {
    AnthropicMessages,
    OpenAiChat,
    OpenAiResponses,
    Gemini,
}

/// The wire format a (trimmed, lower-cased) `wire_api` value names.
pub open spec fn wire_named(t: Seq<char>) -> Option<WireFormat> {
    if t == "anthropic"@ || t == "messages"@ || t == "anthropic_messages"@ {
        Some(WireFormat::AnthropicMessages)
    } else if t == "chat"@ || t == "openai_chat"@ || t == "chat_completions"@ {
        Some(WireFormat::OpenAiChat)
    } else if t == "responses"@ || t == "openai_responses"@ {
        Some(WireFormat::OpenAiResponses)
    } else if t == "gemini"@ || t == "google"@ {
        Some(WireFormat::Gemini)
    } else {
        None
    }
}

pub open spec fn wire_parse_spec(s: Seq<char>) -> Option<WireFormat> {
    wire_named(lower_seq(trim_seq(s)))
}

impl WireFormat {
    /// Reads a `wire_api` config override value; surrounding whitespace and
    /// ASCII case are ignored.
    pub fn parse(s: &str) -> (r: Option<WireFormat>)
        ensures
            r == wire_parse_spec(s@),
    {
        let t = trim(s);
        let l = to_ascii_lower(t.as_str());
        let l = l.as_str();
        if str_eq(l, "anthropic") || str_eq(l, "messages") || str_eq(l, "anthropic_messages") {
            Some(WireFormat::AnthropicMessages)
        } else if str_eq(l, "chat") || str_eq(l, "openai_chat") || str_eq(l, "chat_completions") {
            Some(WireFormat::OpenAiChat)
        } else if str_eq(l, "responses") || str_eq(l, "openai_responses") {
            Some(WireFormat::OpenAiResponses)
        } else if str_eq(l, "gemini") || str_eq(l, "google") {
            Some(WireFormat::Gemini)
        } else {
            None
        }
    }
}

/// Context from the inbound request that codecs need when rendering.
#[derive(Debug)]
pub struct RequestCtx {
    /// Public model name the client asked for; echoed back in responses.
    pub model: String,
    pub stream: bool,
}

} // verus!
