//! OpenAI Chat Completions (`/v1/chat/completions`) codec: tool calls live in
//! `tool_calls` and `role: "tool"` messages with JSON-string arguments, the
//! shape furthest from the IR.
pub mod parse;
pub mod render;
pub mod stream;
pub mod stream_render;

use vstd::prelude::*;
use crate::codec::openai_chat::stream::{ChatParserV, OpenAiChatStreamParser};
use crate::codec::openai_chat::stream_render::{ChatRendererV, OpenAiChatStreamRenderer};
use crate::errors::GatewayError;
use crate::ir::{ChatRequest, ChatResponse};
use crate::json::Json;
use crate::wire::{RequestCtx, WireFormat};
use crate::codec::ProtocolCodec;
use crate::headers::{Headers, response_headers};
use crate::router::Deployment;
use crate::headers::{bearer_text, keyed_headers};

verus! {

/// The OpenAI Chat Completions protocol: parses its bodies into the IR and
/// renders the IR back out.
pub struct OpenAiChatCodec;

impl ProtocolCodec for OpenAiChatCodec {
    open spec fn spec_wire(&self) -> WireFormat {
        WireFormat::OpenAiChat
    }

    /// Inbound: a client request body to the IR.
    fn parse_request(&self, body: Json) -> (r: Result<ChatRequest, GatewayError>) {
        parse::parse_request(body)
    }

    /// Outbound: the IR to a provider request body.
    fn render_request(&self, req: &ChatRequest) -> (r: Result<Json, GatewayError>) {
        render::render_request(req)
    }

    /// Outbound: a provider response body to the IR.
    fn parse_response(&self, body: Json) -> (r: Result<ChatResponse, GatewayError>) {
        parse::parse_response(body)
    }

    /// Inbound: the IR to a client response body.
    fn render_response(&self, resp: &ChatResponse, ctx: &RequestCtx) -> (r: Result<
        Json,
        GatewayError,
    >) {
        render::render_response(resp, ctx.model.as_str())
    }

    /// The upstream request headers for a deployment: bearer authorization.
    fn outbound_headers(&self, deployment: &Deployment, _inbound: &Headers) -> (r: Result<
        Headers,
        GatewayError,
    >) {
        let auth = bearer_text(deployment.api_key.as_str());
        keyed_headers("authorization", auth.as_str())
    }

    /// The headers returned to the client, with OpenAI's `x-request-id`.
    fn response_headers(&self, upstream: &Headers, stream: bool) -> (r: Headers) {
        response_headers(upstream, stream, Some("x-request-id"))
    }

    /// Inbound header names that change the answer and so belong in an exact
    /// cache key: none for this protocol.
    fn cache_key_headers(&self) -> (r: Vec<&'static str>) {
        let r: Vec<&'static str> = Vec::new();
        assert(r@.map_values(|s: &str| s@) =~= Seq::<Seq<char>>::empty());
        r
    }
}

impl OpenAiChatCodec {
    /// A fresh parser for a provider's SSE stream.
    pub fn stream_parser(&self) -> (r: OpenAiChatStreamParser)
        ensures
            r@ == (ChatParserV {
                started: false,
                text_index: None,
                think_index: None,
                tool_slots: Seq::empty(),
                next_index: 0,
                stop_reason: None,
                usage: None,
                blocks_closed: false,
                delta_emitted: false,
                message_stopped: false,
            }),
    {
        OpenAiChatStreamParser::new()
    }

    /// A renderer of client SSE chunks that echoes the public model name.
    pub fn stream_renderer(&self, ctx: &RequestCtx) -> (r: OpenAiChatStreamRenderer)
        ensures
            r@ == (ChatRendererV {
                model: ctx.model@,
                id: Seq::empty(),
                role_sent: false,
                tool_index: Map::empty(),
                next_tool: 0,
                done_sent: false,
            }),
    {
        OpenAiChatStreamRenderer::new(ctx.model.clone())
    }
}

} // verus!
