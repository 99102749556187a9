//! The contracts of providers that take a client's body in the protocol of
//! the endpoint they target: the body gets the upstream model, the provider
//! supplies its headers, and the client gets the content type and request id
//! back.
use vstd::prelude::*;
use vstd::utf8::encode_utf8;
use crate::errors::GatewayError;
use crate::headers::{Headers, response_headers, response_headers_spec, text_bytes};
use crate::json::{Json, JsonV, serde_text, to_json_text};
use crate::providers::transformation::{
    ProviderRequest, normalize_responses_api_request, normalize_spec, rewrite_model, with_model,
};
use crate::router::Deployment;

verus! {

/// The stream flag a body carries, false when it carries none.
pub open spec fn stream_flag(body: JsonV) -> bool {
    match body.get_bool("stream"@) {
        Some(s) => s,
        None => false,
    }
}

/// A request whose body is `body` written by serde_json and whose stream flag
/// is the body's.
pub open spec fn carries(p: ProviderRequest, body: JsonV) -> bool {
    p.body@ == encode_utf8(serde_text(body)) && p.stream == stream_flag(body)
}

/// A request that sends some document, written by serde_json, with that
/// document's stream flag.
pub open spec fn sends_a_document(p: ProviderRequest) -> bool {
    exists|b: JsonV| #![trigger serde_text(b)] carries(p, b)
}

/// The request for a mapped body and the provider's headers.
fn request_of(body: Json, headers: Headers) -> (r: ProviderRequest)
    ensures
        carries(r, body@),
        r.headers@ == headers@,
{
    let stream = match body.get_bool("stream") {
        Some(s) => s,
        None => false,
    };
    let text = to_json_text(&body);
    ProviderRequest { body: text_bytes(text.as_str()), headers, stream }
}

/// The upstream request for a mapped body and the provider's answer for its
/// headers: the body written by serde_json with its stream flag and the
/// headers, or the provider's error as it is.
pub fn provider_request(body: Json, headers: Result<Headers, GatewayError>) -> (r: Result<
    ProviderRequest,
    GatewayError,
>)
    ensures
        match headers {
            Ok(h) => r matches Ok(p) && carries(p, body@) && p.headers@ == h@,
            Err(e) => r matches Err(e2) && e2@ == e@,
        },
{
    match headers {
        Ok(h) => Ok(request_of(body, h)),
        Err(e) => Err(e),
    }
}

/// A provider that targets the Anthropic Messages endpoint.
pub trait BaseAnthropicMessagesTransformation {
    /// The body as the provider takes it: by default with the upstream model
    /// set. The body must be an object (or `null`), as setting its model needs.
    fn map_anthropic_messages_params(&self, body: Json, deployment: &Deployment) -> (r: Result<
        Json,
        GatewayError,
    >)
        requires
            body@ is Object || body@ is Null,
        default_ensures
            r matches Ok(j) && j@ == with_model(body@, deployment.upstream_model@),
    {
        Ok(rewrite_model(body, deployment.upstream_model.as_str()))
    }

    /// The provider's authentication and protocol headers.
    fn validate_environment(&self, deployment: &Deployment, inbound_headers: &Headers) -> Result<
        Headers,
        GatewayError,
    >;

    /// The upstream request: the mapped body written by serde_json, its stream
    /// flag, and the provider's headers; the first error of either step.
    fn transform_anthropic_messages_request(
        &self,
        body: Json,
        deployment: &Deployment,
        inbound_headers: &Headers,
    ) -> (r: Result<ProviderRequest, GatewayError>)
        requires
            body@ is Object || body@ is Null,
        default_ensures
            r matches Ok(p) ==> sends_a_document(p),
    {
        let body = match self.map_anthropic_messages_params(body, deployment) {
            Ok(b) => b,
            Err(e) => return Err(e),
        };
        let headers = self.validate_environment(deployment, inbound_headers);
        let ghost b = body@;
        let r = provider_request(body, headers);
        assert(r matches Ok(p) ==> carries(p, b));
        r
    }

    /// The headers returned to the client, with Anthropic's `request-id`.
    fn transform_anthropic_messages_response_headers(&self, upstream: &Headers, stream: bool) -> (r:
        Headers)
        default_ensures
            r@ == response_headers_spec(upstream@, stream, Some("request-id"@)),
    {
        response_headers(upstream, stream, Some("request-id"))
    }
}

/// A provider that targets the OpenAI Responses endpoint.
pub trait BaseOpenAiResponsesTransformation {
    /// Whether the provider runs file search itself: not by default.
    fn supports_native_file_search(&self) -> (r: bool)
        default_ensures
            !r,
    {
        false
    }

    /// Whether the provider speaks the Responses WebSocket: not by default.
    fn supports_native_websocket(&self) -> (r: bool)
        default_ensures
            !r,
    {
        false
    }

    /// Whether a streamed request is answered whole and replayed as a
    /// stream: not by default.
    fn should_fake_stream(&self, model: Option<&str>, stream: Option<bool>) -> (r: bool)
        default_ensures
            !r,
    {
        false
    }

    /// The body as the provider takes it: by default with the upstream model
    /// set and `namespace` dropped from custom tool calls. The body must be an
    /// object (or `null`), as setting its model needs.
    fn map_openai_responses_params(&self, body: Json, deployment: &Deployment) -> (r: Result<
        Json,
        GatewayError,
    >)
        requires
            body@ is Object || body@ is Null,
        default_ensures
            r matches Ok(j) && j@ == normalize_spec(with_model(body@, deployment.upstream_model@)),
    {
        let body = rewrite_model(body, deployment.upstream_model.as_str());
        Ok(normalize_responses_api_request(body))
    }

    /// The provider's authentication and protocol headers.
    fn validate_environment(&self, deployment: &Deployment, inbound_headers: &Headers) -> Result<
        Headers,
        GatewayError,
    >;

    /// The upstream request: the mapped body written by serde_json, its stream
    /// flag, and the provider's headers; the first error of either step.
    fn transform_openai_responses_request(
        &self,
        body: Json,
        deployment: &Deployment,
        inbound_headers: &Headers,
    ) -> (r: Result<ProviderRequest, GatewayError>)
        requires
            body@ is Object || body@ is Null,
        default_ensures
            r matches Ok(p) ==> sends_a_document(p),
    {
        let body = match self.map_openai_responses_params(body, deployment) {
            Ok(b) => b,
            Err(e) => return Err(e),
        };
        let headers = self.validate_environment(deployment, inbound_headers);
        let ghost b = body@;
        let r = provider_request(body, headers);
        assert(r matches Ok(p) ==> carries(p, b));
        r
    }

    /// The headers returned to the client, with OpenAI's `x-request-id`.
    fn transform_openai_responses_response_headers(&self, upstream: &Headers, stream: bool) -> (r:
        Headers)
        default_ensures
            r@ == response_headers_spec(upstream@, stream, Some("x-request-id"@)),
    {
        response_headers(upstream, stream, Some("x-request-id"))
    }
}

} // verus!
