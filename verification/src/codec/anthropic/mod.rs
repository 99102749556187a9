//! Anthropic Messages (`/v1/messages`) codec, the protocol closest to the IR.
pub mod blocks;
pub mod parse;
pub mod render;
pub mod stream;

use vstd::prelude::*;
use crate::codec::anthropic::stream::{AnthropicStreamParser, AnthropicStreamRenderer};
use crate::errors::GatewayError;
use crate::ir::{ChatRequest, ChatResponse, Usage};
use crate::json::Json;
use crate::wire::{RequestCtx, WireFormat};
use crate::codec::ProtocolCodec;
use crate::headers::{Headers, response_headers};
use crate::router::Deployment;
use crate::headers::anthropic_outbound;

verus! {

/// The Anthropic Messages protocol: parses its bodies into the IR and renders
/// the IR back out.
pub struct AnthropicCodec;

impl ProtocolCodec for AnthropicCodec {
    open spec fn spec_wire(&self) -> WireFormat {
        WireFormat::AnthropicMessages
    }

    /// Inbound: a client request body to the IR.
    fn parse_request(&self, body: Json) -> (r: Result<ChatRequest, GatewayError>) {
        parse::parse_request(body)
    }

    /// Outbound: the IR to a provider request body.
    fn render_request(&self, req: &ChatRequest) -> (r: Result<Json, GatewayError>) {
        render::render_request(req)
    }

    /// Outbound: a provider response body to the IR.
    fn parse_response(&self, body: Json) -> (r: Result<ChatResponse, GatewayError>) {
        parse::parse_response(body)
    }

    /// Inbound: the IR to a client response body.
    fn render_response(&self, resp: &ChatResponse, ctx: &RequestCtx) -> (r: Result<
        Json,
        GatewayError,
    >) {
        render::render_response(resp, ctx)
    }

    /// The upstream request headers for a deployment.
    fn outbound_headers(&self, deployment: &Deployment, inbound: &Headers) -> (r: Result<
        Headers,
        GatewayError,
    >) {
        anthropic_outbound(deployment.api_key.as_str(), inbound)
    }

    /// The headers returned to the client, with Anthropic's `request-id`.
    fn response_headers(&self, upstream: &Headers, stream: bool) -> (r: Headers) {
        response_headers(upstream, stream, Some("request-id"))
    }

    /// Inbound header names that change the answer and so belong in an exact
    /// cache key: none for this protocol.
    fn cache_key_headers(&self) -> (r: Vec<&'static str>) {
        let r: Vec<&'static str> = Vec::new();
        assert(r@.map_values(|s: &str| s@) =~= Seq::<Seq<char>>::empty());
        r
    }
}

impl AnthropicCodec {
    /// A fresh parser for a provider's SSE stream.
    pub fn stream_parser(&self) -> (r: AnthropicStreamParser)
        ensures
            r.start_usage == (Usage {
                input_tokens: 0,
                output_tokens: 0,
                cache_creation_input_tokens: 0,
                cache_read_input_tokens: 0,
            }),
    {
        AnthropicStreamParser::new()
    }

    /// A renderer of client SSE frames that echoes the public model name.
    pub fn stream_renderer(&self, ctx: &RequestCtx) -> (r: AnthropicStreamRenderer)
        ensures
            r.model@ == ctx.model@,
    {
        AnthropicStreamRenderer::new(ctx.model.clone())
    }
}

} // verus!
