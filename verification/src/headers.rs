//! HTTP header lists as the codecs and transformations read and build them:
//! lower-case names with raw byte values, where a lookup finds the first entry
//! of a name and an insert replaces every entry of it.
use vstd::prelude::*;
use vstd::utf8::encode_utf8;
use crate::errors::{GatewayError, GatewayErrorV};
use crate::text::{concat, owned, str_eq};

verus! {

broadcast use vstd::string::group_string_axioms;

/// The value of the first entry named `n`.
pub open spec fn header_find(e: Seq<(Seq<char>, Seq<u8>)>, n: Seq<char>) -> Option<Seq<u8>>
    decreases e.len(),
{
    if e.len() == 0 {
        None
    } else if e[0].0 == n {
        Some(e[0].1)
    } else {
        header_find(e.drop_first(), n)
    }
}

/// The entries not named `n`, in order.
pub open spec fn header_without(e: Seq<(Seq<char>, Seq<u8>)>, n: Seq<char>) -> Seq<(Seq<char>, Seq<u8>)>
    decreases e.len(),
{
    if e.len() == 0 {
        Seq::empty()
    } else {
        let r = header_without(e.drop_last(), n);
        if e.last().0 == n {
            r
        } else {
            r.push(e.last())
        }
    }
}

/// The entries with `n` bound to `v` alone.
pub open spec fn header_insert(e: Seq<(Seq<char>, Seq<u8>)>, n: Seq<char>, v: Seq<u8>) -> Seq<
    (Seq<char>, Seq<u8>),
> {
    header_without(e, n).push((n, v))
}

/// A byte `http` accepts in a header value: visible ASCII, obs-text, or tab.
pub open spec fn header_byte_ok(b: u8) -> bool {
    (b >= 32 && b != 127) || b == 9
}

pub open spec fn header_value_ok(s: Seq<u8>) -> bool {
    forall|i: int| 0 <= i < s.len() ==> header_byte_ok(#[trigger] s[i])
}

/// Calls `axum::http::HeaderValue::from_bytes`, which accepts a value exactly
/// when every byte is visible ASCII, obs-text or a tab (http's `is_valid`).
#[verifier::external_body]
fn header_value_valid(bytes: &[u8]) -> (r: bool)
    ensures
        r == header_value_ok(bytes@),
{
    axum::http::HeaderValue::from_bytes(bytes).is_ok()
}

/// A header list.
pub struct Headers {
    entries: Vec<(String, Vec<u8>)>,
}

pub open spec fn entries_view(v: Seq<(String, Vec<u8>)>) -> Seq<(Seq<char>, Seq<u8>)> {
    v.map_values(|p: (String, Vec<u8>)| (p.0@, p.1@))
}

impl View for Headers {
    type V = Seq<(Seq<char>, Seq<u8>)>;

    closed spec fn view(&self) -> Seq<(Seq<char>, Seq<u8>)> {
        entries_view(self.entries@)
    }
}

fn clone_bytes(v: &Vec<u8>) -> (r: Vec<u8>)
    ensures
        r@ == v@,
{
    let mut out: Vec<u8> = Vec::new();
    let mut i: usize = 0;
    while i < v.len()
        invariant
            i <= v.len(),
            out@ == v@.take(i as int),
        decreases v.len() - i,
    {
        out.push(v[i]);
        assert(out@ =~= v@.take(i + 1));
        i = i + 1;
    }
    assert(v@.take(v.len() as int) =~= v@);
    out
}

/// The bytes of a text.
pub fn text_bytes(s: &str) -> (r: Vec<u8>)
    ensures
        r@ == encode_utf8(s@),
{
    vstd::slice::slice_to_vec(s.as_bytes())
}

impl Headers {
    pub fn new() -> (r: Headers)
        ensures
            r@ == Seq::<(Seq<char>, Seq<u8>)>::empty(),
    {
        let r = Headers { entries: Vec::new() };
        assert(r@ =~= Seq::<(Seq<char>, Seq<u8>)>::empty());
        r
    }

    /// A list holding `entries` as they are.
    pub fn from_entries(entries: Vec<(String, Vec<u8>)>) -> (r: Headers)
        ensures
            r@ == entries_view(entries@),
    {
        Headers { entries }
    }

    /// The entries, in order.
    pub fn entries(&self) -> (r: &Vec<(String, Vec<u8>)>)
        ensures
            entries_view(r@) == self@,
    {
        &self.entries
    }

    /// The value of the first entry named `name`.
    pub fn get(&self, name: &str) -> (r: Option<Vec<u8>>)
        ensures
            match r {
                Some(v) => header_find(self@, name@) == Some(v@),
                None => header_find(self@, name@) is None,
            },
    {
        let ghost e = self@;
        let mut i: usize = 0;
        assert(e.skip(0) =~= e);
        while i < self.entries.len()
            invariant
                i <= self.entries.len(),
                e == entries_view(self.entries@),
                e.len() == self.entries.len(),
                header_find(e, name@) == header_find(e.skip(i as int), name@),
            decreases self.entries.len() - i,
        {
            assert(e.skip(i as int)[0] == e[i as int]);
            assert(e.skip(i as int).drop_first() =~= e.skip(i + 1));
            if str_eq(self.entries[i].0.as_str(), name) {
                return Some(clone_bytes(&self.entries[i].1));
            }
            i = i + 1;
        }
        None
    }

    /// Binds `name` to `value`, replacing every earlier entry of the name.
    pub fn insert(&mut self, name: &str, value: Vec<u8>)
        ensures
            final(self)@ == header_insert(old(self)@, name@, value@),
    {
        let ghost e = self@;
        let mut kept: Vec<(String, Vec<u8>)> = Vec::new();
        let mut i: usize = 0;
        while i < self.entries.len()
            invariant
                i <= self.entries.len(),
                e == entries_view(self.entries@),
                e.len() == self.entries.len(),
                entries_view(kept@) == header_without(e.take(i as int), name@),
            decreases self.entries.len() - i,
        {
            assert(e.take(i + 1).drop_last() =~= e.take(i as int));
            assert(e.take(i + 1).last() == e[i as int]);
            if !str_eq(self.entries[i].0.as_str(), name) {
                let ghost prev = kept@;
                kept.push((self.entries[i].0.clone(), clone_bytes(&self.entries[i].1)));
                assert(entries_view(kept@) =~= entries_view(prev).push(e[i as int]));
            }
            i = i + 1;
        }
        assert(e.take(self.entries.len() as int) =~= e);
        let ghost prev = kept@;
        kept.push((owned(name), value));
        assert(entries_view(kept@) =~= entries_view(prev).push((name@, value@)));
        self.entries = kept;
    }

    /// Binds `name` to the bytes of `value`.
    pub fn insert_text(&mut self, name: &str, value: &str)
        ensures
            final(self)@ == header_insert(old(self)@, name@, encode_utf8(value@)),
    {
        self.insert(name, text_bytes(value));
    }
}

/// The error for an API key that cannot stand in a header.
pub open spec fn invalid_api_key() -> GatewayErrorV {
    GatewayErrorV::InvalidConfig("invalid api_key"@)
}

/// The bytes of `value` when they make a valid header value, else the
/// invalid-key error.
pub fn checked_value(value: &str) -> (r: Result<Vec<u8>, GatewayError>)
    ensures
        match r {
            Ok(b) => header_value_ok(encode_utf8(value@)) && b@ == encode_utf8(value@),
            Err(e) => !header_value_ok(encode_utf8(value@)) && e@ == invalid_api_key(),
        },
{
    let bytes = text_bytes(value);
    if header_value_valid(bytes.as_slice()) {
        Ok(bytes)
    } else {
        Err(GatewayError::InvalidConfig(owned("invalid api_key")))
    }
}

/// The response content type: an event stream when streaming, else the
/// upstream's, JSON by default.
pub open spec fn content_type_for(upstream: Seq<(Seq<char>, Seq<u8>)>, stream: bool) -> Seq<u8> {
    if stream {
        encode_utf8("text/event-stream"@)
    } else {
        match header_find(upstream, "content-type"@) {
            Some(v) => v,
            None => encode_utf8("application/json"@),
        }
    }
}

/// Response headers for the client: the content type, and the upstream's
/// request id under `id_header` when it sent one.
pub open spec fn response_headers_spec(
    upstream: Seq<(Seq<char>, Seq<u8>)>,
    stream: bool,
    id_header: Option<Seq<char>>,
) -> Seq<(Seq<char>, Seq<u8>)> {
    let h = header_insert(Seq::empty(), "content-type"@, content_type_for(upstream, stream));
    match id_header {
        Some(name) => match header_find(upstream, name) {
            Some(v) => header_insert(h, name, v),
            None => h,
        },
        None => h,
    }
}

pub fn response_headers(upstream: &Headers, stream: bool, id_header: Option<&str>) -> (r: Headers)
    ensures
        r@ == response_headers_spec(
            upstream@,
            stream,
            match id_header {
                Some(n) => Some(n@),
                None => None,
            },
        ),
{
    let content_type = if stream {
        text_bytes("text/event-stream")
    } else {
        match upstream.get("content-type") {
            Some(v) => v,
            None => text_bytes("application/json"),
        }
    };
    let mut h = Headers::new();
    h.insert("content-type", content_type);
    if let Some(name) = id_header {
        if let Some(v) = upstream.get(name) {
            h.insert(name, v);
        }
    }
    h
}

/// The bearer authorization value for an API key.
pub open spec fn bearer(key: Seq<char>) -> Seq<char> {
    "Bearer "@ + key
}

/// Outbound headers carrying `key_value` under `key_header` (when valid) and
/// a JSON content type.
pub open spec fn keyed_headers_spec(key_header: Seq<char>, key_value: Seq<char>) -> Result<
    Seq<(Seq<char>, Seq<u8>)>,
    GatewayErrorV,
> {
    if header_value_ok(encode_utf8(key_value)) {
        Ok(
            header_insert(
                header_insert(Seq::empty(), key_header, encode_utf8(key_value)),
                "content-type"@,
                encode_utf8("application/json"@),
            ),
        )
    } else {
        Err(invalid_api_key())
    }
}

pub open spec fn headers_result_view(r: Result<Headers, GatewayError>) -> Result<
    Seq<(Seq<char>, Seq<u8>)>,
    GatewayErrorV,
> {
    match r {
        Ok(h) => Ok(h@),
        Err(e) => Err(e@),
    }
}

pub fn keyed_headers(key_header: &str, key_value: &str) -> (r: Result<Headers, GatewayError>)
    ensures
        headers_result_view(r) == keyed_headers_spec(key_header@, key_value@),
{
    let v = match checked_value(key_value) {
        Ok(v) => v,
        Err(e) => return Err(e),
    };
    let mut h = Headers::new();
    h.insert(key_header, v);
    h.insert_text("content-type", "application/json");
    Ok(h)
}

pub fn bearer_text(key: &str) -> (r: String)
    ensures
        r@ == bearer(key@),
{
    concat("Bearer ", key)
}

/// Anthropic outbound headers: the key as `x-api-key`, the client's
/// `anthropic-version` (or 2023-06-01), a JSON content type, and the
/// client's `anthropic-beta` when it sent one.
pub open spec fn anthropic_outbound_spec(key: Seq<char>, inbound: Seq<(Seq<char>, Seq<u8>)>) -> Result<
    Seq<(Seq<char>, Seq<u8>)>,
    GatewayErrorV,
> {
    if header_value_ok(encode_utf8(key)) {
        let h = header_insert(Seq::empty(), "x-api-key"@, encode_utf8(key));
        let h = header_insert(
            h,
            "anthropic-version"@,
            match header_find(inbound, "anthropic-version"@) {
                Some(v) => v,
                None => encode_utf8("2023-06-01"@),
            },
        );
        let h = header_insert(h, "content-type"@, encode_utf8("application/json"@));
        Ok(
            match header_find(inbound, "anthropic-beta"@) {
                Some(b) => header_insert(h, "anthropic-beta"@, b),
                None => h,
            },
        )
    } else {
        Err(invalid_api_key())
    }
}

pub fn anthropic_outbound(key: &str, inbound: &Headers) -> (r: Result<Headers, GatewayError>)
    ensures
        headers_result_view(r) == anthropic_outbound_spec(key@, inbound@),
{
    let v = match checked_value(key) {
        Ok(v) => v,
        Err(e) => return Err(e),
    };
    let mut h = Headers::new();
    h.insert("x-api-key", v);
    let version = match inbound.get("anthropic-version") {
        Some(v) => v,
        None => text_bytes("2023-06-01"),
    };
    h.insert("anthropic-version", version);
    h.insert_text("content-type", "application/json");
    if let Some(b) = inbound.get("anthropic-beta") {
        h.insert("anthropic-beta", b);
    }
    Ok(h)
}

/// The headers Codex attaches to each turn; forwarded so that upstream
/// logging keeps request correlation.
pub open spec fn forwarded_names() -> Seq<Seq<char>> {
    seq![
        "accept"@,
        "originator"@,
        "session-id"@,
        "thread-id"@,
        "x-client-request-id"@,
        "x-codex-beta-features"@,
        "x-codex-turn-metadata"@,
        "x-codex-window-id"@,
    ]
}

fn forwarded_names_exec() -> (r: Vec<&'static str>)
    ensures
        r@.map_values(|s: &str| s@) == forwarded_names(),
{
    let r = vec![
        "accept",
        "originator",
        "session-id",
        "thread-id",
        "x-client-request-id",
        "x-codex-beta-features",
        "x-codex-turn-metadata",
        "x-codex-window-id",
    ];
    assert(r@.map_values(|s: &str| s@) =~= forwarded_names());
    r
}

/// `h` with each of `names` the inbound list has copied over, in order.
pub open spec fn forward(
    h: Seq<(Seq<char>, Seq<u8>)>,
    inbound: Seq<(Seq<char>, Seq<u8>)>,
    names: Seq<Seq<char>>,
) -> Seq<(Seq<char>, Seq<u8>)>
    decreases names.len(),
{
    if names.len() == 0 {
        h
    } else {
        let r = forward(h, inbound, names.drop_last());
        match header_find(inbound, names.last()) {
            Some(v) => header_insert(r, names.last(), v),
            None => r,
        }
    }
}

/// OpenAI Responses outbound headers: bearer authorization, a JSON content
/// type, and the forwarded Codex headers.
pub open spec fn responses_outbound_spec(key: Seq<char>, inbound: Seq<(Seq<char>, Seq<u8>)>) -> Result<
    Seq<(Seq<char>, Seq<u8>)>,
    GatewayErrorV,
> {
    match keyed_headers_spec("authorization"@, bearer(key)) {
        Ok(h) => Ok(forward(h, inbound, forwarded_names())),
        Err(e) => Err(e),
    }
}

pub fn responses_outbound(key: &str, inbound: &Headers) -> (r: Result<Headers, GatewayError>)
    ensures
        headers_result_view(r) == responses_outbound_spec(key@, inbound@),
{
    let auth = bearer_text(key);
    let mut h = match keyed_headers("authorization", auth.as_str()) {
        Ok(h) => h,
        Err(e) => return Err(e),
    };
    let names = forwarded_names_exec();
    let ghost nv = forwarded_names();
    let ghost h0 = h@;
    let mut i: usize = 0;
    while i < names.len()
        invariant
            i <= names.len(),
            nv == names@.map_values(|s: &str| s@),
            nv.len() == names.len(),
            h@ == forward(h0, inbound@, nv.take(i as int)),
        decreases names.len() - i,
    {
        assert(nv.take(i + 1).drop_last() =~= nv.take(i as int));
        assert(nv.take(i + 1).last() == names@[i as int]@);
        if let Some(v) = inbound.get(names[i]) {
            h.insert(names[i], v);
        }
        i = i + 1;
    }
    assert(nv.take(names.len() as int) =~= nv);
    Ok(h)
}

} // verus!
