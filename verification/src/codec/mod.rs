//! Protocol codecs: each wire protocol parses its shape into the IR and
//! renders the IR back out, so N protocols need N codecs. A request is
//! translated by parsing with the inbound codec and rendering with the
//! outbound one.
pub mod common;
pub mod anthropic;
pub mod cache_inject;

pub mod openai_responses;
pub mod gemini;
pub mod openai_chat;

use vstd::prelude::*;
use crate::codec::anthropic::AnthropicCodec;
use crate::codec::anthropic::parse::{request_result_view, response_result_view};
use crate::codec::gemini::GeminiCodec;
use crate::codec::openai_chat::OpenAiChatCodec;
use crate::codec::openai_responses::OpenAiResponsesCodec;
use crate::errors::{GatewayError, GatewayErrorV};
use crate::headers::{
    Headers, anthropic_outbound_spec, bearer, headers_result_view, keyed_headers_spec,
    response_headers_spec, responses_outbound_spec,
};
use crate::ir::{ChatRequest, ChatRequestV, ChatResponse, ChatResponseV};
use crate::json::{Json, JsonV};
use crate::router::Deployment;
use crate::wire::{RequestCtx, WireFormat};

verus! {

/// What a codec makes of an inbound request body.
pub open spec fn parse_request_for(w: WireFormat, body: JsonV) -> Result<ChatRequestV, GatewayErrorV> {
    match w {
        WireFormat::AnthropicMessages => anthropic::parse::parse_request_spec(body),
        WireFormat::OpenAiChat => openai_chat::parse::parse_request_spec(body),
        WireFormat::OpenAiResponses => openai_responses::parse::parse_request_spec(body),
        WireFormat::Gemini => gemini::parse::parse_request_spec(body),
    }
}

/// The provider request body a codec renders.
pub open spec fn render_request_for(w: WireFormat, r: ChatRequestV) -> JsonV {
    match w {
        WireFormat::AnthropicMessages => anthropic::render::render_request_spec(r),
        WireFormat::OpenAiChat => openai_chat::render::render_request_spec(r),
        WireFormat::OpenAiResponses => openai_responses::render::render_request_spec(r),
        WireFormat::Gemini => gemini::render::render_request_spec(r),
    }
}

/// What a codec makes of a provider response body.
pub open spec fn parse_response_for(w: WireFormat, body: JsonV) -> Result<ChatResponseV, GatewayErrorV> {
    match w {
        WireFormat::AnthropicMessages => anthropic::parse::parse_response_spec(body),
        WireFormat::OpenAiChat => openai_chat::parse::parse_response_spec(body),
        WireFormat::OpenAiResponses => openai_responses::decode::parse_response_spec(body),
        WireFormat::Gemini => gemini::parse::parse_response_spec(body),
    }
}

/// The client response body a codec renders, naming the public model.
pub open spec fn render_response_for(w: WireFormat, r: ChatResponseV, model: Seq<char>) -> JsonV {
    match w {
        WireFormat::AnthropicMessages => anthropic::render::render_response_spec(r, model),
        WireFormat::OpenAiChat => openai_chat::render::render_response_spec(r, model),
        WireFormat::OpenAiResponses => openai_responses::render::render_response_spec(r, model),
        WireFormat::Gemini => gemini::render::render_response_spec(r),
    }
}

/// The upstream headers a codec builds from a deployment's key and the
/// inbound headers.
pub open spec fn outbound_headers_for(
    w: WireFormat,
    api_key: Seq<char>,
    inbound: Seq<(Seq<char>, Seq<u8>)>,
) -> Result<Seq<(Seq<char>, Seq<u8>)>, GatewayErrorV> {
    match w {
        WireFormat::AnthropicMessages => anthropic_outbound_spec(api_key, inbound),
        WireFormat::OpenAiChat => keyed_headers_spec("authorization"@, bearer(api_key)),
        WireFormat::OpenAiResponses => responses_outbound_spec(api_key, inbound),
        WireFormat::Gemini => keyed_headers_spec("x-goog-api-key"@, api_key),
    }
}

/// The headers a codec returns to the client.
pub open spec fn response_headers_for(
    w: WireFormat,
    upstream: Seq<(Seq<char>, Seq<u8>)>,
    stream: bool,
) -> Seq<(Seq<char>, Seq<u8>)> {
    match w {
        WireFormat::AnthropicMessages => response_headers_spec(upstream, stream, Some("request-id"@)),
        WireFormat::OpenAiChat => response_headers_spec(upstream, stream, Some("x-request-id"@)),
        WireFormat::OpenAiResponses => response_headers_spec(
            upstream,
            stream,
            Some("x-request-id"@),
        ),
        WireFormat::Gemini => response_headers_spec(upstream, stream, None),
    }
}

/// The inbound header names a codec forwards that change the answer.
pub open spec fn cache_key_headers_for(w: WireFormat) -> Seq<Seq<char>> {
    match w {
        WireFormat::OpenAiResponses => seq!["x-codex-beta-features"@],
        _ => Seq::empty(),
    }
}

/// Translates between one wire protocol and the IR, both directions.
pub trait ProtocolCodec {
    /// The protocol this codec speaks.
    spec fn spec_wire(&self) -> WireFormat;

    /// Inbound: a client request body to the IR.
    fn parse_request(&self, body: Json) -> (r: Result<ChatRequest, GatewayError>)
        ensures
            request_result_view(r) == parse_request_for(self.spec_wire(), body@),
    ;

    /// Outbound: the IR to a provider request body.
    fn render_request(&self, req: &ChatRequest) -> (r: Result<Json, GatewayError>)
        ensures
            r matches Ok(j) && j@ == render_request_for(self.spec_wire(), req@),
    ;

    /// Outbound: a provider response body to the IR.
    fn parse_response(&self, body: Json) -> (r: Result<ChatResponse, GatewayError>)
        ensures
            response_result_view(r) == parse_response_for(self.spec_wire(), body@),
    ;

    /// Inbound: the IR to a client response body.
    fn render_response(&self, resp: &ChatResponse, ctx: &RequestCtx) -> (r: Result<
        Json,
        GatewayError,
    >)
        ensures
            r matches Ok(j) && j@ == render_response_for(self.spec_wire(), resp@, ctx.model@),
    ;

    /// The upstream request headers for a deployment.
    fn outbound_headers(&self, deployment: &Deployment, inbound: &Headers) -> (r: Result<
        Headers,
        GatewayError,
    >)
        ensures
            headers_result_view(r) == outbound_headers_for(
                self.spec_wire(),
                deployment.api_key@,
                inbound@,
            ),
    ;

    /// The headers returned to the client.
    fn response_headers(&self, upstream: &Headers, stream: bool) -> (r: Headers)
        ensures
            r@ == response_headers_for(self.spec_wire(), upstream@, stream),
    ;

    /// Inbound header names that change the answer and so belong in an exact
    /// cache key.
    fn cache_key_headers(&self) -> (r: Vec<&'static str>)
        ensures
            r@.map_values(|s: &str| s@) == cache_key_headers_for(self.spec_wire()),
    ;
}

/// One of the four codecs, chosen by wire format.
pub enum Codec {
    Anthropic(AnthropicCodec),
    OpenAiChat(OpenAiChatCodec),
    OpenAiResponses(OpenAiResponsesCodec),
    Gemini(GeminiCodec),
}

/// The codec that speaks `wire`.
pub fn codec_for(wire: WireFormat) -> (r: Codec)
    ensures
        r.spec_wire() == wire,
{
    match wire {
        WireFormat::AnthropicMessages => Codec::Anthropic(AnthropicCodec),
        WireFormat::OpenAiChat => Codec::OpenAiChat(OpenAiChatCodec),
        WireFormat::OpenAiResponses => Codec::OpenAiResponses(OpenAiResponsesCodec),
        WireFormat::Gemini => Codec::Gemini(GeminiCodec),
    }
}

impl ProtocolCodec for Codec {
    open spec fn spec_wire(&self) -> WireFormat {
        match self {
            Codec::Anthropic(c) => c.spec_wire(),
            Codec::OpenAiChat(c) => c.spec_wire(),
            Codec::OpenAiResponses(c) => c.spec_wire(),
            Codec::Gemini(c) => c.spec_wire(),
        }
    }

    fn parse_request(&self, body: Json) -> (r: Result<ChatRequest, GatewayError>) {
        match self {
            Codec::Anthropic(c) => c.parse_request(body),
            Codec::OpenAiChat(c) => c.parse_request(body),
            Codec::OpenAiResponses(c) => c.parse_request(body),
            Codec::Gemini(c) => c.parse_request(body),
        }
    }

    fn render_request(&self, req: &ChatRequest) -> (r: Result<Json, GatewayError>) {
        match self {
            Codec::Anthropic(c) => c.render_request(req),
            Codec::OpenAiChat(c) => c.render_request(req),
            Codec::OpenAiResponses(c) => c.render_request(req),
            Codec::Gemini(c) => c.render_request(req),
        }
    }

    fn parse_response(&self, body: Json) -> (r: Result<ChatResponse, GatewayError>) {
        match self {
            Codec::Anthropic(c) => c.parse_response(body),
            Codec::OpenAiChat(c) => c.parse_response(body),
            Codec::OpenAiResponses(c) => c.parse_response(body),
            Codec::Gemini(c) => c.parse_response(body),
        }
    }

    fn render_response(&self, resp: &ChatResponse, ctx: &RequestCtx) -> (r: Result<
        Json,
        GatewayError,
    >) {
        match self {
            Codec::Anthropic(c) => c.render_response(resp, ctx),
            Codec::OpenAiChat(c) => c.render_response(resp, ctx),
            Codec::OpenAiResponses(c) => c.render_response(resp, ctx),
            Codec::Gemini(c) => c.render_response(resp, ctx),
        }
    }

    fn outbound_headers(&self, deployment: &Deployment, inbound: &Headers) -> (r: Result<
        Headers,
        GatewayError,
    >) {
        match self {
            Codec::Anthropic(c) => c.outbound_headers(deployment, inbound),
            Codec::OpenAiChat(c) => c.outbound_headers(deployment, inbound),
            Codec::OpenAiResponses(c) => c.outbound_headers(deployment, inbound),
            Codec::Gemini(c) => c.outbound_headers(deployment, inbound),
        }
    }

    fn response_headers(&self, upstream: &Headers, stream: bool) -> (r: Headers) {
        match self {
            Codec::Anthropic(c) => c.response_headers(upstream, stream),
            Codec::OpenAiChat(c) => c.response_headers(upstream, stream),
            Codec::OpenAiResponses(c) => c.response_headers(upstream, stream),
            Codec::Gemini(c) => c.response_headers(upstream, stream),
        }
    }

    fn cache_key_headers(&self) -> (r: Vec<&'static str>) {
        match self {
            Codec::Anthropic(c) => c.cache_key_headers(),
            Codec::OpenAiChat(c) => c.cache_key_headers(),
            Codec::OpenAiResponses(c) => c.cache_key_headers(),
            Codec::Gemini(c) => c.cache_key_headers(),
        }
    }
}

} // verus!
