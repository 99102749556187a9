//! OpenAI Responses (`/v1/responses`) codec: system becomes `instructions`,
//! messages an `input` array of items, tool calls and results top-level items,
//! and tools are flat.
pub mod decode;
pub mod parse;
pub mod render;
pub mod render_stream;
pub mod stream;

use vstd::prelude::*;
use crate::codec::openai_responses::render_stream::{ResponsesRendererV, ResponsesStreamRenderer};
use crate::codec::openai_responses::stream::{ResponsesParserV, ResponsesStreamParser};
use crate::errors::GatewayError;
use crate::ir::{ChatRequest, ChatResponse};
use crate::json::Json;
use crate::wire::{RequestCtx, WireFormat};
use crate::codec::ProtocolCodec;
use crate::headers::{Headers, response_headers};
use crate::router::Deployment;
use crate::headers::responses_outbound;

verus! {

/// The OpenAI Responses protocol: parses its bodies into the IR and renders
/// the IR back out.
pub struct OpenAiResponsesCodec;

impl ProtocolCodec for OpenAiResponsesCodec {
    open spec fn spec_wire(&self) -> WireFormat {
        WireFormat::OpenAiResponses
    }

    /// Inbound: a client request body to the IR.
    fn parse_request(&self, body: Json) -> (r: Result<ChatRequest, GatewayError>) {
        parse::parse_request(body)
    }

    /// Outbound: the IR to a provider request body.
    fn render_request(&self, req: &ChatRequest) -> (r: Result<Json, GatewayError>) {
        render::render_request(req)
    }

    /// Outbound: a provider response body to the IR.
    fn parse_response(&self, body: Json) -> (r: Result<ChatResponse, GatewayError>) {
        decode::parse_response(body)
    }

    /// Inbound: the IR to a client response body.
    fn render_response(&self, resp: &ChatResponse, ctx: &RequestCtx) -> (r: Result<
        Json,
        GatewayError,
    >) {
        render::render_response(resp, ctx)
    }

    /// The upstream request headers for a deployment: bearer authorization
    /// and the forwarded Codex headers.
    fn outbound_headers(&self, deployment: &Deployment, inbound: &Headers) -> (r: Result<
        Headers,
        GatewayError,
    >) {
        responses_outbound(deployment.api_key.as_str(), inbound)
    }

    /// The headers returned to the client, with OpenAI's `x-request-id`.
    fn response_headers(&self, upstream: &Headers, stream: bool) -> (r: Headers) {
        response_headers(upstream, stream, Some("x-request-id"))
    }

    /// Of the forwarded headers only the beta-feature toggle shapes the
    /// answer; the rest are per-request telemetry that would defeat a cache.
    fn cache_key_headers(&self) -> (r: Vec<&'static str>) {
        let r = vec!["x-codex-beta-features"];
        assert(r@.map_values(|s: &str| s@) =~= seq!["x-codex-beta-features"@]);
        r
    }
}

impl OpenAiResponsesCodec {
    /// A fresh parser for a provider's SSE stream.
    pub fn stream_parser(&self) -> (r: ResponsesStreamParser)
        ensures
            r@ == (ResponsesParserV {
                started: false,
                opened: Seq::empty(),
                saw_tool: false,
                stop_reason: None,
                usage: None,
                message_stopped: false,
            }),
    {
        ResponsesStreamParser::new()
    }

    /// A renderer of client SSE frames that echoes the public model name.
    pub fn stream_renderer(&self, ctx: &RequestCtx) -> (r: ResponsesStreamRenderer)
        ensures
            r@ == (ResponsesRendererV {
                model: ctx.model@,
                id: Seq::empty(),
                next_oi: 0,
                stop_reason: None,
                usage: None,
                items: Map::empty(),
            }),
    {
        ResponsesStreamRenderer::new(ctx.model.clone())
    }
}

} // verus!
