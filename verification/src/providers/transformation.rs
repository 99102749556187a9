//! Pass-through transformations: a request body already in the provider's
//! own protocol gets the upstream model and the provider's headers.
use vstd::prelude::*;
use vstd::utf8::encode_utf8;
use crate::errors::{GatewayError, GatewayErrorV};
use crate::headers::{
    Headers, anthropic_outbound, anthropic_outbound_spec, headers_result_view, response_headers,
    response_headers_spec, responses_outbound, responses_outbound_spec, text_bytes,
};
use crate::json::{Json, JsonV, lemma_view_items, serde_text, to_json_text, view_items};
use crate::router::Deployment;
use crate::text::str_eq;

verus! {

broadcast use vstd::string::group_string_axioms;

/// A request ready to send upstream.
pub struct ProviderRequest {
    pub body: Vec<u8>,
    pub headers: Headers,
    pub stream: bool,
}

pub struct ProviderRequestV {
    pub body: Seq<u8>,
    pub headers: Seq<(Seq<char>, Seq<u8>)>,
    pub stream: bool,
}

impl View for ProviderRequest {
    type V = ProviderRequestV;

    open spec fn view(&self) -> ProviderRequestV {
        ProviderRequestV { body: self.body@, headers: self.headers@, stream: self.stream }
    }
}

/// The body with its model set to `model` (a `null` body becomes an object),
/// unless it names that model already.
pub open spec fn with_model(body: JsonV, model: Seq<char>) -> JsonV {
    if body.get_str("model"@) == Some(model) {
        body
    } else {
        let o = if body is Null { JsonV::empty_object() } else { body };
        o.set("model"@, JsonV::Str(model))
    }
}

/// The request a pass-through sends: the body with the upstream model,
/// written by serde_json; its stream flag; and the headers `headers` gives,
/// or the header error.
pub open spec fn passthrough_spec(
    body: JsonV,
    model: Seq<char>,
    headers: Result<Seq<(Seq<char>, Seq<u8>)>, GatewayErrorV>,
) -> Result<ProviderRequestV, GatewayErrorV> {
    let b = with_model(body, model);
    match headers {
        Ok(h) => Ok(
            ProviderRequestV {
                body: encode_utf8(serde_text(b)),
                headers: h,
                stream: match b.get_bool("stream"@) {
                    Some(s) => s,
                    None => false,
                },
            },
        ),
        Err(e) => Err(e),
    }
}

pub open spec fn request_result_view(r: Result<ProviderRequest, GatewayError>) -> Result<
    ProviderRequestV,
    GatewayErrorV,
> {
    match r {
        Ok(p) => Ok(p@),
        Err(e) => Err(e@),
    }
}

pub(crate) fn rewrite_model(body: Json, model: &str) -> (r: Json)
    requires
        body@ is Object || body@ is Null,
    ensures
        r@ == with_model(body@, model@),
{
    let same = match body.get_str("model") {
        Some(m) => str_eq(m.as_str(), model),
        None => false,
    };
    if same {
        return body;
    }
    let o = if body.is_null() {
        Json::object()
    } else {
        body
    };
    o.set("model", Json::str(model))
}

fn finish_request(body: Json, model: &str, headers: Result<Headers, GatewayError>) -> (r: Result<
    ProviderRequest,
    GatewayError,
>)
    requires
        body@ is Object || body@ is Null,
    ensures
        request_result_view(r) == passthrough_spec(body@, model@, headers_result_view(headers)),
{
    let body = rewrite_model(body, model);
    let stream = match body.get_bool("stream") {
        Some(s) => s,
        None => false,
    };
    let headers = match headers {
        Ok(h) => h,
        Err(e) => return Err(e),
    };
    let text = to_json_text(&body);
    Ok(ProviderRequest { body: text_bytes(text.as_str()), headers, stream })
}

/// Pass-through to Anthropic Messages.
#[derive(Debug)]
pub struct AnthropicTransformation;

impl AnthropicTransformation {
    /// The upstream request for a client body in Anthropic's own protocol.
    /// The body must be an object (or `null`), as setting its model needs.
    pub fn transform_request(&self, body: Json, deployment: &Deployment, inbound_headers: &Headers) -> (r:
        Result<ProviderRequest, GatewayError>)
        requires
            body@ is Object || body@ is Null,
        ensures
            request_result_view(r) == passthrough_spec(
                body@,
                deployment.upstream_model@,
                anthropic_outbound_spec(deployment.api_key@, inbound_headers@),
            ),
    {
        let headers = anthropic_outbound(deployment.api_key.as_str(), inbound_headers);
        finish_request(body, deployment.upstream_model.as_str(), headers)
    }

    /// The headers returned to the client, with Anthropic's `request-id`.
    pub fn transform_response_headers(&self, upstream: &Headers, stream: bool) -> (r: Headers)
        ensures
            r@ == response_headers_spec(upstream@, stream, Some("request-id"@)),
    {
        response_headers(upstream, stream, Some("request-id"))
    }
}

/// Pass-through to the OpenAI Responses API.
#[derive(Debug)]
pub struct OpenAiResponsesTransformation;

impl OpenAiResponsesTransformation {
    /// The upstream request for a client body in the Responses protocol.
    /// The body must be an object (or `null`), as setting its model needs.
    pub fn transform_request(&self, body: Json, deployment: &Deployment, inbound_headers: &Headers) -> (r:
        Result<ProviderRequest, GatewayError>)
        requires
            body@ is Object || body@ is Null,
        ensures
            request_result_view(r) == passthrough_spec(
                body@,
                deployment.upstream_model@,
                responses_outbound_spec(deployment.api_key@, inbound_headers@),
            ),
    {
        let headers = responses_outbound(deployment.api_key.as_str(), inbound_headers);
        finish_request(body, deployment.upstream_model.as_str(), headers)
    }

    /// The headers returned to the client, with OpenAI's `x-request-id`.
    pub fn transform_response_headers(&self, upstream: &Headers, stream: bool) -> (r: Headers)
        ensures
            r@ == response_headers_spec(upstream@, stream, Some("x-request-id"@)),
    {
        response_headers(upstream, stream, Some("x-request-id"))
    }
}

/// An input item with `namespace` dropped when it is a `custom_tool_call`.
pub open spec fn normalize_item(item: JsonV) -> JsonV {
    if item.get_str("type"@) == Some("custom_tool_call"@) {
        match item {
            JsonV::Object(e) => JsonV::Object(
                crate::codec::common::without_keys(e, seq!["namespace"@]),
            ),
            _ => item,
        }
    } else {
        item
    }
}

/// A Responses request with `namespace` removed from its custom tool calls;
/// any other body is left as it is.
pub open spec fn normalize_spec(body: JsonV) -> JsonV {
    match body.get("input"@) {
        Some(JsonV::Array(items)) => body.set(
            "input"@,
            JsonV::Array(items.map_values(|i: JsonV| normalize_item(i))),
        ),
        _ => body,
    }
}

fn normalize_item_exec(item: &Json) -> (r: Json)
    ensures
        r@ == normalize_item(item@),
{
    let custom = match item.get_str("type") {
        Some(t) => str_eq(t.as_str(), "custom_tool_call"),
        None => false,
    };
    if custom {
        match item {
            Json::Object(e) => {
                let known = vec!["namespace"];
                assert(crate::codec::common::names_view(known@) =~= seq!["namespace"@]);
                Json::Object(crate::codec::common::strip_known(e, known.as_slice()))
            },
            _ => item.clone(),
        }
    } else {
        item.clone()
    }
}

/// Drops `namespace` from every `custom_tool_call` input item.
pub fn normalize_responses_api_request(body: Json) -> (r: Json)
    ensures
        r@ == normalize_spec(body@),
{
    let items = match body.get("input") {
        Some(Json::Array(items)) => items,
        _ => return body,
    };
    let ghost iv = view_items(items@);
    proof {
        lemma_view_items(items@);
    }
    let mut out: Vec<Json> = Vec::new();
    let mut i: usize = 0;
    while i < items.len()
        invariant
            i <= items.len(),
            iv == view_items(items@),
            iv.len() == items.len(),
            forall|k: int| 0 <= k < items.len() ==> #[trigger] iv[k] == items@[k]@,
            view_items(out@) == iv.take(i as int).map_values(|x: JsonV| normalize_item(x)),
        decreases items.len() - i,
    {
        let n = normalize_item_exec(&items[i]);
        let ghost prev = out@;
        out.push(n);
        assert(out@.drop_last() == prev);
        assert(iv.take(i + 1).map_values(|x: JsonV| normalize_item(x)) =~= iv.take(i as int).map_values(
            |x: JsonV| normalize_item(x),
        ).push(normalize_item(iv[i as int])));
        i = i + 1;
    }
    assert(iv.take(items.len() as int) =~= iv);
    body.set("input", Json::array(out))
}

} // verus!
