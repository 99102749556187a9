//! Gemini (`generateContent` / `streamGenerateContent`) codec: roles are
//! `user`/`model`, system goes in `systemInstruction`, and tool calls and
//! results are `functionCall`/`functionResponse` parts with object arguments.
//! Function calls often carry no id, so results are matched to calls by name.
pub mod common;
pub mod parse;
pub mod parts;
pub mod render;
pub mod stream;
pub mod stream_render;

use vstd::prelude::*;
use crate::codec::gemini::stream::{GeminiParserV, GeminiStreamParser};
use crate::codec::gemini::stream_render::{GeminiRendererV, GeminiStreamRenderer};
use crate::errors::GatewayError;
use crate::ir::{ChatRequest, ChatResponse};
use crate::json::Json;
use crate::wire::{RequestCtx, WireFormat};
use crate::codec::ProtocolCodec;
use crate::headers::{Headers, response_headers};
use crate::router::Deployment;
use crate::headers::keyed_headers;

verus! {

/// The Gemini protocol: parses its bodies into the IR and renders the IR
/// back out.
pub struct GeminiCodec;

impl ProtocolCodec for GeminiCodec {
    open spec fn spec_wire(&self) -> WireFormat {
        WireFormat::Gemini
    }

    /// Inbound: a client request body to the IR.
    fn parse_request(&self, body: Json) -> (r: Result<ChatRequest, GatewayError>) {
        parse::parse_request(body)
    }

    /// Outbound: the IR to a provider request body.
    fn render_request(&self, req: &ChatRequest) -> (r: Result<Json, GatewayError>) {
        render::render_request(req)
    }

    /// Outbound: a provider response body to the IR.
    fn parse_response(&self, body: Json) -> (r: Result<ChatResponse, GatewayError>) {
        parse::parse_response(body)
    }

    /// Inbound: the IR to a client response body.
    fn render_response(&self, resp: &ChatResponse, ctx: &RequestCtx) -> (r: Result<
        Json,
        GatewayError,
    >) {
        render::render_response(resp, ctx)
    }

    /// The upstream request headers for a deployment: the key as
    /// `x-goog-api-key`.
    fn outbound_headers(&self, deployment: &Deployment, _inbound: &Headers) -> (r: Result<
        Headers,
        GatewayError,
    >) {
        keyed_headers("x-goog-api-key", deployment.api_key.as_str())
    }

    /// The headers returned to the client: the content type only.
    fn response_headers(&self, upstream: &Headers, stream: bool) -> (r: Headers) {
        response_headers(upstream, stream, None)
    }

    /// Inbound header names that change the answer and so belong in an exact
    /// cache key: none for this protocol.
    fn cache_key_headers(&self) -> (r: Vec<&'static str>) {
        let r: Vec<&'static str> = Vec::new();
        assert(r@.map_values(|s: &str| s@) =~= Seq::<Seq<char>>::empty());
        r
    }
}

impl GeminiCodec {
    /// A fresh parser for a provider's SSE stream.
    pub fn stream_parser(&self) -> (r: GeminiStreamParser)
        ensures
            r@ == (GeminiParserV {
                started: false,
                text_index: None,
                think_index: None,
                next_index: 0,
                saw_tool: false,
                stop_reason: None,
                usage: None,
                message_stopped: false,
            }),
    {
        GeminiStreamParser::new()
    }

    /// A fresh renderer of client SSE chunks.
    pub fn stream_renderer(&self, _ctx: &RequestCtx) -> (r: GeminiStreamRenderer)
        ensures
            r@ == (GeminiRendererV {
                tool_args: Map::empty(),
                stop_reason: None,
                usage: None,
                sent_finish: false,
            }),
    {
        GeminiStreamRenderer::new()
    }
}

} // verus!
