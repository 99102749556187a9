//! Properties of the library as a whole: what one operation undoes of
//! another, what repeating an operation changes, and what every state keeps.
use vstd::prelude::*;
use crate::ir::{
    Effort, StopReasonV, effort_named, stop_from_anthropic, stop_from_gemini, stop_from_openai,
    stop_to_anthropic, stop_to_gemini, stop_to_openai,
};
use crate::codec::anthropic::blocks::{u64_at, usage_from_anthropic_spec};
use crate::codec::anthropic::render::usage_json;
use crate::codec::gemini::common::{gemini_usage_spec, usage_from_gemini_spec};
use crate::codec::openai_chat::parse::usage_from_openai_spec;
use crate::codec::openai_chat::render::openai_usage_spec;
use crate::codec::openai_responses::parse::usage_from_responses_spec;
use crate::codec::openai_responses::render::responses_usage_spec;
use crate::codec::cache_inject::{inject_spec, placed_breakpoints};
use crate::codec::gemini::stream::{GeminiParserV, finalize_spec as gemini_finalize};
use crate::codec::openai_chat::stream::{ChatParserV, finalize_spec as chat_finalize};
use crate::codec::openai_responses::stream::{ResponsesParserV, finalize_spec as responses_finalize};
use crate::ir::ChatRequestV;
use crate::agents::AgentEventV;
use crate::codec::gemini::parts::surrogate_seed;
use crate::text::{decimal, digit_char, is_ws};
use vstd::utf8::{
    encode_scalar, encode_utf8, encode_utf8_decode_utf8, encode_utf8_valid_utf8,
    has_width_1_encoding,
};
use crate::sse::{
    SseEventV, block_end, block_text, boundary_at, decode_events, decode_rest, lemma_scan_is,
    scan_boundary, block_lines, data_prefix, event_prefix, fold_lines, frame_text, join_nl,
    parse_block_spec, split_nl, step_line, strip_cr,
};
use crate::agents::cursor::{
    CursorStateV, Members, emit_tool_use_spec, normalize_spec, running_spec, thinking_spec,
};
use crate::agents::opencode::{normalize_event_spec, session_id_spec};
use crate::config::ModelEntryV;
use crate::errors::GatewayErrorV;
use crate::providers::ProviderV;
use crate::router::{
    DeploymentV, entry_route, is_wildcard, model_prefix, passthrough_spec, resolve_spec, routes_spec,
};
use crate::text::trim_end_matches_seq;
use crate::ir::Usage;
use crate::headers::{forwarded_names, header_find, header_insert, header_without};
use crate::codec::cache_key_headers_for;
use crate::wire::WireFormat;
use crate::json::{JsonV, lemma_set_get};
use crate::codec::common::{before_char, data_url_to_source_spec, source_to_data_url_spec};
use crate::ir::ImageSourceV;
use crate::text::{
    first_index, lemma_first_index, lower_seq, split_once_seq, starts_with_seq, strip_prefix_seq,
    trim_end_seq, trim_seq, trim_start_seq,
};

verus! {

/// Two texts differ when they differ in length or in their first character.
proof fn lemma_differ(a: Seq<char>, b: Seq<char>)
    requires
        a.len() != b.len() || (0 < a.len() && 0 < b.len() && a[0] != b[0]),
    ensures
        a != b,
{
}

/// A reasoning tier survives the trip through its token budget.
pub proof fn law_effort_budget_round_trip(e: Effort)
    ensures
        Effort::spec_from_budget(e.spec_budget()) == e,
{
}

/// A reasoning tier read back from the name it is written with is the same
/// tier.
pub proof fn law_effort_name_round_trip(e: Effort)
    ensures
        effort_named(lower_seq(trim_seq(e.spec_name()))) == Some(e),
{
    reveal_strlit("minimal");
    reveal_strlit("none");
    reveal_strlit("low");
    reveal_strlit("medium");
    reveal_strlit("high");
    let s = e.spec_name();
    assert(trim_start_seq(s) == s);
    assert(trim_end_seq(s) == s);
    assert(lower_seq(s) =~= s);
}

/// The five stop reasons the Anthropic protocol names.
pub open spec fn anthropic_stop_named(s: Seq<char>) -> bool {
    s == "end_turn"@ || s == "max_tokens"@ || s == "tool_use"@ || s == "stop_sequence"@ || s
        == "refusal"@
}

/// An Anthropic stop reason text is written back out as it came in, known or
/// not.
pub proof fn law_anthropic_stop_text_round_trip(s: Seq<char>)
    ensures
        stop_to_anthropic(stop_from_anthropic(s)) == s,
{
}

/// A canonical stop reason survives the trip through the Anthropic protocol,
/// except a provider-specific reason spelled like one the protocol names.
pub proof fn law_anthropic_stop_round_trip(r: StopReasonV)
    requires
        r matches StopReasonV::Other(s) ==> !anthropic_stop_named(s),
    ensures
        stop_from_anthropic(stop_to_anthropic(r)) == r,
{
    reveal_strlit("end_turn");
    reveal_strlit("max_tokens");
    reveal_strlit("tool_use");
    reveal_strlit("stop_sequence");
    reveal_strlit("refusal");
    match r {
        StopReasonV::EndTurn => {},
        StopReasonV::MaxTokens => lemma_differ("max_tokens"@, "end_turn"@),
        StopReasonV::ToolUse => {
            lemma_differ("tool_use"@, "end_turn"@);
            lemma_differ("tool_use"@, "max_tokens"@);
        },
        StopReasonV::StopSequence => {
            lemma_differ("stop_sequence"@, "end_turn"@);
            lemma_differ("stop_sequence"@, "max_tokens"@);
            lemma_differ("stop_sequence"@, "tool_use"@);
        },
        StopReasonV::ContentFilter => {
            lemma_differ("refusal"@, "end_turn"@);
            lemma_differ("refusal"@, "max_tokens"@);
            lemma_differ("refusal"@, "tool_use"@);
            lemma_differ("refusal"@, "stop_sequence"@);
        },
        StopReasonV::Other(_) => {},
    }
}

/// The finish reasons the OpenAI protocol names.
pub open spec fn openai_stop_named(s: Seq<char>) -> bool {
    s == "stop"@ || s == "length"@ || s == "tool_calls"@ || s == "function_call"@ || s
        == "content_filter"@
}

/// An OpenAI finish reason is written back out as it came in, but for the
/// legacy `function_call`, which comes back as `tool_calls`.
pub proof fn law_openai_stop_text_round_trip(s: Seq<char>)
    ensures
        s != "function_call"@ ==> stop_to_openai(stop_from_openai(s)) == s,
        stop_to_openai(stop_from_openai("function_call"@)) == "tool_calls"@,
{
    reveal_strlit("stop");
    reveal_strlit("length");
    reveal_strlit("tool_calls");
    reveal_strlit("function_call");
    reveal_strlit("content_filter");
}

/// A canonical stop reason survives the trip through the OpenAI protocol,
/// except a stop sequence (OpenAI says `stop` for it) and a provider-specific
/// reason spelled like one the protocol names.
pub proof fn law_openai_stop_round_trip(r: StopReasonV)
    requires
        !(r is StopSequence),
        r matches StopReasonV::Other(s) ==> !openai_stop_named(s),
    ensures
        stop_from_openai(stop_to_openai(r)) == r,
{
    reveal_strlit("stop");
    reveal_strlit("length");
    reveal_strlit("tool_calls");
    reveal_strlit("function_call");
    reveal_strlit("content_filter");
    match r {
        StopReasonV::EndTurn => {},
        StopReasonV::MaxTokens => lemma_differ("length"@, "stop"@),
        StopReasonV::ToolUse => {
            lemma_differ("tool_calls"@, "stop"@);
            lemma_differ("tool_calls"@, "length"@);
        },
        StopReasonV::ContentFilter => {
            lemma_differ("content_filter"@, "stop"@);
            lemma_differ("content_filter"@, "length"@);
            lemma_differ("content_filter"@, "tool_calls"@);
            lemma_differ("content_filter"@, "function_call"@);
        },
        _ => {},
    }
}

/// Gemini keeps three of the canonical stop reasons apart: a clean stop, the
/// token limit and a safety stop survive the trip through it.
pub proof fn law_gemini_stop_round_trip(r: StopReasonV)
    requires
        r is EndTurn || r is MaxTokens || r is ContentFilter,
    ensures
        stop_from_gemini(stop_to_gemini(r)) == r,
{
    reveal_strlit("STOP");
    reveal_strlit("MAX_TOKENS");
    reveal_strlit("SAFETY");
    reveal_strlit("PROHIBITED_CONTENT");
    match r {
        StopReasonV::MaxTokens => lemma_differ("MAX_TOKENS"@, "STOP"@),
        StopReasonV::ContentFilter => {
            lemma_differ("SAFETY"@, "STOP"@);
            lemma_differ("SAFETY"@, "MAX_TOKENS"@);
        },
        _ => {},
    }
}

/// The four members of an Anthropic usage object hold what they were set to.
proof fn lemma_usage_members(a: u64, b: u64, c: u64, d: u64)
    ensures
        ({
            let o = JsonV::empty_object().set("input_tokens"@, JsonV::UInt(a)).set(
                "output_tokens"@,
                JsonV::UInt(b),
            ).set("cache_creation_input_tokens"@, JsonV::UInt(c)).set(
                "cache_read_input_tokens"@,
                JsonV::UInt(d),
            );
            &&& o is Object
            &&& u64_at(o, "input_tokens"@) == a
            &&& u64_at(o, "output_tokens"@) == b
            &&& u64_at(o, "cache_creation_input_tokens"@) == c
            &&& u64_at(o, "cache_read_input_tokens"@) == d
        }),
{
    reveal_strlit("input_tokens");
    reveal_strlit("output_tokens");
    reveal_strlit("cache_creation_input_tokens");
    reveal_strlit("cache_read_input_tokens");
    let k1 = "input_tokens"@;
    let k2 = "output_tokens"@;
    let k3 = "cache_creation_input_tokens"@;
    let k4 = "cache_read_input_tokens"@;
    lemma_differ(k1, k2);
    lemma_differ(k1, k3);
    lemma_differ(k1, k4);
    lemma_differ(k2, k3);
    lemma_differ(k2, k4);
    lemma_differ(k3, k4);
    let o0 = JsonV::empty_object();
    let o1 = o0.set(k1, JsonV::UInt(a));
    let o2 = o1.set(k2, JsonV::UInt(b));
    let o3 = o2.set(k3, JsonV::UInt(c));
    let o4 = o3.set(k4, JsonV::UInt(d));
    lemma_set_get(o0, k1, JsonV::UInt(a), k2);
    lemma_set_get(o1, k2, JsonV::UInt(b), k1);
    lemma_set_get(o2, k3, JsonV::UInt(c), k1);
    lemma_set_get(o2, k3, JsonV::UInt(c), k2);
    lemma_set_get(o3, k4, JsonV::UInt(d), k1);
    lemma_set_get(o3, k4, JsonV::UInt(d), k2);
    lemma_set_get(o3, k4, JsonV::UInt(d), k3);
}

/// Anthropic counts cached and cache-written tokens apart from `input_tokens`
/// while the canonical usage includes them: a canonical usage written out and
/// read back is the same usage, whenever its cached parts fit in its input.
pub proof fn law_anthropic_usage_round_trip(u: Usage)
    requires
        u.cache_read_input_tokens + u.cache_creation_input_tokens <= u.input_tokens,
    ensures
        usage_from_anthropic_spec(Some(usage_json(u))) == u,
{
    lemma_usage_members(
        u.spec_non_cached(),
        u.output_tokens,
        u.cache_creation_input_tokens,
        u.cache_read_input_tokens,
    );
}

/// The other direction: Anthropic usage read in and written back out carries
/// the same four numbers, whenever their sum fits in 64 bits.
pub proof fn law_anthropic_usage_wire_round_trip(o: JsonV)
    requires
        o is Object,
        u64_at(o, "input_tokens"@) + u64_at(o, "cache_read_input_tokens"@) + u64_at(
            o,
            "cache_creation_input_tokens"@,
        ) <= u64::MAX,
    ensures
        ({
            let back = usage_json(usage_from_anthropic_spec(Some(o)));
            &&& u64_at(back, "input_tokens"@) == u64_at(o, "input_tokens"@)
            &&& u64_at(back, "output_tokens"@) == u64_at(o, "output_tokens"@)
            &&& u64_at(back, "cache_creation_input_tokens"@) == u64_at(
                o,
                "cache_creation_input_tokens"@,
            )
            &&& u64_at(back, "cache_read_input_tokens"@) == u64_at(o, "cache_read_input_tokens"@)
        }),
{
    let u = usage_from_anthropic_spec(Some(o));
    lemma_usage_members(
        u.spec_non_cached(),
        u.output_tokens,
        u.cache_creation_input_tokens,
        u.cache_read_input_tokens,
    );
}

/// A lookup in a list with one entry appended finds what it found before,
/// else the new entry when it has the name.
proof fn lemma_find_push(a: Seq<(Seq<char>, Seq<u8>)>, x: (Seq<char>, Seq<u8>), m: Seq<char>)
    ensures
        header_find(a.push(x), m) == match header_find(a, m) {
            Some(v) => Some(v),
            None => if x.0 == m {
                Some(x.1)
            } else {
                None
            },
        },
    decreases a.len(),
{
    assert(a.push(x)[0] == if a.len() > 0 {
        a[0]
    } else {
        x
    });
    if a.len() > 0 {
        assert(a.push(x).drop_first() =~= a.drop_first().push(x));
        lemma_find_push(a.drop_first(), x, m);
    } else {
        assert(a.push(x).drop_first() =~= a);
    }
}

/// Dropping the entries of one name hides that name and no other.
proof fn lemma_find_without(e: Seq<(Seq<char>, Seq<u8>)>, n: Seq<char>, m: Seq<char>)
    ensures
        header_find(header_without(e, n), m) == if m == n {
            None
        } else {
            header_find(e, m)
        },
    decreases e.len(),
{
    if e.len() > 0 {
        let init = e.drop_last();
        lemma_find_without(init, n, m);
        lemma_find_push(init, e.last(), m);
        assert(init.push(e.last()) =~= e);
        if e.last().0 != n {
            lemma_find_push(header_without(init, n), e.last(), m);
        }
    }
}

/// A header read back after it is set gives the value set; every other
/// header reads as before.
pub proof fn law_header_insert_get(
    e: Seq<(Seq<char>, Seq<u8>)>,
    n: Seq<char>,
    v: Seq<u8>,
    m: Seq<char>,
)
    ensures
        header_find(header_insert(e, n, v), n) == Some(v),
        m != n ==> header_find(header_insert(e, n, v), m) == header_find(e, m),
{
    lemma_find_without(e, n, n);
    lemma_find_without(e, n, m);
    lemma_find_push(header_without(e, n), (n, v), n);
    lemma_find_push(header_without(e, n), (n, v), m);
}

/// A Gemini stream ends once: ending it again emits nothing.
pub proof fn law_gemini_stream_ends_once(s: GeminiParserV)
    ensures
        gemini_finalize(gemini_finalize(s).1).0 == Seq::<crate::ir::StreamEventV>::empty(),
{
}

/// An OpenAI chat stream ends once: ending it again emits nothing.
pub proof fn law_chat_stream_ends_once(s: ChatParserV)
    ensures
        chat_finalize(chat_finalize(s).1).0 == Seq::<crate::ir::StreamEventV>::empty(),
{
    let s1 = chat_finalize(s).1;
    if s1.started {
        assert(chat_finalize(s1).0 =~= Seq::<crate::ir::StreamEventV>::empty());
    }
}

/// A Responses stream ends once: ending it again emits nothing.
pub proof fn law_responses_stream_ends_once(s: ResponsesParserV)
    ensures
        responses_finalize(responses_finalize(s).1).0 == Seq::<crate::ir::StreamEventV>::empty(),
{
}

/// Breakpoints the client placed are left alone: the request comes back as
/// it went in.
pub proof fn law_inject_keeps_client_breakpoints(
    r: ChatRequestV,
    max_breakpoints: usize,
    min_tokens: u64,
    chars_per_token: u64,
)
    requires
        r.cache_tools || r.cache_system || r.cache_messages.len() > 0,
    ensures
        inject_spec(r, max_breakpoints, min_tokens, chars_per_token) == r,
{
}

/// Injection places at most as many breakpoints as the caller allows and
/// Anthropic accepts (four), each on a message that exists, in ascending
/// order.
pub proof fn law_inject_budget(
    r: ChatRequestV,
    max_breakpoints: usize,
    min_tokens: u64,
    chars_per_token: u64,
)
    requires
        r.messages.len() <= usize::MAX,
    ensures
        ({
            let p = placed_breakpoints(r, max_breakpoints, min_tokens, chars_per_token);
            &&& (if p.0 { 1int } else { 0int }) + (if p.1 { 1int } else { 0int }) + p.2.len()
                <= max_breakpoints
            &&& (if p.0 { 1int } else { 0int }) + (if p.1 { 1int } else { 0int }) + p.2.len() <= 4
            &&& forall|i: int| 0 <= i < p.2.len() ==> p.2[i] < r.messages.len()
            &&& forall|i: int, j: int| 0 <= i < j < p.2.len() ==> p.2[i] < p.2[j]
        }),
{
    let p = placed_breakpoints(r, max_breakpoints, min_tokens, chars_per_token);
    let n = r.messages.len();
    assert(p.2.len() <= 2);
    if p.2.len() == 2 {
        assert(p.2[0] == (n / 2) as usize && p.2[1] == (n - 1) as usize);
    } else if p.2.len() == 1 {
        assert(p.2[0] == (n / 2) as usize || p.2[0] == (n - 1) as usize);
    }
}

/// Injecting twice places nothing more than injecting once.
pub proof fn law_inject_idempotent(
    r: ChatRequestV,
    max_breakpoints: usize,
    min_tokens: u64,
    chars_per_token: u64,
)
    ensures
        inject_spec(
            inject_spec(r, max_breakpoints, min_tokens, chars_per_token),
            max_breakpoints,
            min_tokens,
            chars_per_token,
        ) == inject_spec(r, max_breakpoints, min_tokens, chars_per_token),
{
    let r1 = inject_spec(r, max_breakpoints, min_tokens, chars_per_token);
    if !(r1.cache_tools || r1.cache_system || r1.cache_messages.len() > 0) && max_breakpoints
        != 0 && !(r.cache_tools || r.cache_system || r.cache_messages.len() > 0) {
        assert(r1.cache_messages =~= r.cache_messages);
        assert(r1 == r);
    }
}

/// An entry that is not a wildcard lands in the exact table under its name,
/// bound to the route of the last such entry of that name.
proof fn lemma_exact_entry_routed(
    entries: Seq<ModelEntryV>,
    providers: Map<Seq<char>, ProviderV>,
    i: int,
)
    requires
        routes_spec(entries, providers) is Ok,
        0 <= i < entries.len(),
        entry_route(entries[i], providers) is Ok,
        !is_wildcard(entries[i], entry_route(entries[i], providers)->Ok_0),
    ensures
        ({
            let routes = routes_spec(entries, providers)->Ok_0.0;
            let name = entries[i].model_name;
            &&& routes.contains_key(name)
            &&& exists|j: int|
                i <= j < entries.len() && #[trigger] entries[j].model_name == name && entry_route(
                    entries[j],
                    providers,
                ) == Ok::<DeploymentV, GatewayErrorV>(routes[name]) && !is_wildcard(
                    entries[j],
                    routes[name],
                )
        }),
    decreases entries.len(),
{
    let init = entries.drop_last();
    let last = entries.last();
    let k = entries.len() - 1;
    let name = entries[i].model_name;
    let routes = routes_spec(entries, providers)->Ok_0.0;
    if i == k {
        assert(entries[k].model_name == name);
    } else {
        assert(init[i] == entries[i]);
        lemma_exact_entry_routed(init, providers, i);
        let routes0 = routes_spec(init, providers)->Ok_0.0;
        let j0 = choose|j: int|
            i <= j < init.len() && #[trigger] init[j].model_name == name && entry_route(
                init[j],
                providers,
            ) == Ok::<DeploymentV, GatewayErrorV>(routes0[name]) && !is_wildcard(
                init[j],
                routes0[name],
            );
        assert(init[j0] == entries[j0]);
        let d = entry_route(last, providers)->Ok_0;
        if !is_wildcard(last, d) && last.model_name == name {
            assert(entries[k].model_name == name);
        } else {
            assert(routes[name] == routes0[name]);
        }
    }
}

/// An exact model-list entry is always served by its own name, whatever
/// wildcard routes stand beside it: the name resolves to the route of the
/// last exact entry that declares it.
pub proof fn law_exact_route_wins(
    entries: Seq<ModelEntryV>,
    providers: Map<Seq<char>, ProviderV>,
    i: int,
)
    requires
        routes_spec(entries, providers) is Ok,
        0 <= i < entries.len(),
        entry_route(entries[i], providers) is Ok,
        !is_wildcard(entries[i], entry_route(entries[i], providers)->Ok_0),
    ensures
        ({
            let (routes, wildcards) = routes_spec(entries, providers)->Ok_0;
            let name = entries[i].model_name;
            exists|j: int|
                i <= j < entries.len() && #[trigger] entries[j].model_name == name
                    && !is_wildcard(entries[j], routes[name]) && entry_route(entries[j], providers)
                    == resolve_spec(routes, wildcards, name)
        }),
{
    lemma_exact_entry_routed(entries, providers, i);
}

/// The first `c` in `s` is at `k` when `s[k]` is `c` and no `c` comes before.
proof fn lemma_first_index_at(s: Seq<char>, c: char, k: int)
    requires
        0 <= k < s.len(),
        s[k] == c,
        forall|j: int| 0 <= j < k ==> s[j] != c,
    ensures
        first_index(s, c) == k,
{
    lemma_first_index(s, c);
}

/// Inline image data written as a `data:` URL and read back is the same
/// image, whenever its media type holds no `;` or `,`; any URL that is not a
/// `data:` URL stays a reference.
pub proof fn law_data_url_round_trip(media_type: Seq<char>, data: Seq<char>, url: Seq<char>)
    requires
        forall|i: int| 0 <= i < media_type.len() ==> #[trigger] media_type[i] != ';' && media_type[i] != ',',
    ensures
        data_url_to_source_spec(
            source_to_data_url_spec(ImageSourceV::Base64 { media_type, data }),
        ) == (ImageSourceV::Base64 { media_type, data }),
        !starts_with_seq(url, "data:"@) ==> data_url_to_source_spec(url) == ImageSourceV::Url(url),
{
    reveal_strlit("data:");
    reveal_strlit(";base64,");
    let tag = ";base64,"@;
    let full = "data:"@ + media_type + tag + data;
    assert(full.take(5) =~= "data:"@);
    let rest = full.skip(5);
    assert(rest =~= media_type + tag + data);
    let m = media_type.len() as int;
    assert forall|j: int| 0 <= j < m + 7 implies rest[j] != ',' by {
        if j < m {
            assert(rest[j] == media_type[j]);
        } else {
            assert(rest[j] == tag[j - m]);
        }
    }
    assert(rest[m + 7] == ',');
    lemma_first_index_at(rest, ',', m + 7);
    let meta = rest.take(m + 7);
    assert(rest.skip(m + 8) =~= data);
    assert forall|j: int| 0 <= j < m implies meta[j] != ';' by {
        assert(meta[j] == media_type[j]);
    }
    assert(meta[m] == ';');
    lemma_first_index_at(meta, ';', m);
    assert(meta.take(m) =~= media_type);
}

/// An object with three members set in turn reads each back, and reads
/// nothing under a fourth name.
proof fn lemma_three_members(
    k1: Seq<char>,
    v1: JsonV,
    k2: Seq<char>,
    v2: JsonV,
    k3: Seq<char>,
    v3: JsonV,
    k4: Seq<char>,
)
    requires
        k1 != k2 && k1 != k3 && k1 != k4 && k2 != k3 && k2 != k4 && k3 != k4,
    ensures
        ({
            let o = JsonV::empty_object().set(k1, v1).set(k2, v2).set(k3, v3);
            &&& o is Object
            &&& o.get(k1) == Some(v1)
            &&& o.get(k2) == Some(v2)
            &&& o.get(k3) == Some(v3)
            &&& o.get(k4) is None
        }),
{
    let o0 = JsonV::empty_object();
    let o1 = o0.set(k1, v1);
    let o2 = o1.set(k2, v2);
    assert(o0.get(k4) is None);
    lemma_set_get(o0, k1, v1, k4);
    lemma_set_get(o0, k1, v1, k2);
    lemma_set_get(o1, k2, v2, k1);
    lemma_set_get(o1, k2, v2, k4);
    lemma_set_get(o2, k3, v3, k1);
    lemma_set_get(o2, k3, v3, k2);
    lemma_set_get(o2, k3, v3, k4);
}

/// A canonical usage written out as OpenAI chat usage and read back is the
/// same usage, whenever it has no cache-written part (OpenAI has none).
pub proof fn law_openai_usage_round_trip(u: Usage)
    requires
        u.cache_creation_input_tokens == 0,
    ensures
        usage_from_openai_spec(Some(openai_usage_spec(u))) == u,
{
    reveal_strlit("prompt_tokens");
    reveal_strlit("completion_tokens");
    reveal_strlit("total_tokens");
    reveal_strlit("prompt_tokens_details");
    reveal_strlit("cached_tokens");
    let k1 = "prompt_tokens"@;
    let k2 = "completion_tokens"@;
    let k3 = "total_tokens"@;
    let k4 = "prompt_tokens_details"@;
    lemma_differ(k1, k2);
    lemma_differ(k1, k3);
    lemma_differ(k1, k4);
    lemma_differ(k2, k3);
    lemma_differ(k2, k4);
    lemma_differ(k3, k4);
    let v3 = JsonV::UInt(vstd::wrapping::u64_specs::wrapping_add(u.input_tokens, u.output_tokens));
    lemma_three_members(k1, JsonV::UInt(u.input_tokens), k2, JsonV::UInt(u.output_tokens), k3, v3, k4);
    let o = JsonV::empty_object().set(k1, JsonV::UInt(u.input_tokens)).set(
        k2,
        JsonV::UInt(u.output_tokens),
    ).set(k3, v3);
    let details = JsonV::empty_object().set("cached_tokens"@, JsonV::UInt(u.cache_read_input_tokens));
    lemma_set_get(JsonV::empty_object(), "cached_tokens"@, JsonV::UInt(u.cache_read_input_tokens), k1);
    lemma_set_get(o, k4, details, k1);
    lemma_set_get(o, k4, details, k2);
}

/// A canonical usage written out as Responses usage and read back is the
/// same usage, whenever it has no cache-written part.
pub proof fn law_responses_usage_round_trip(u: Usage)
    requires
        u.cache_creation_input_tokens == 0,
    ensures
        usage_from_responses_spec(Some(responses_usage_spec(u))) == u,
{
    reveal_strlit("input_tokens");
    reveal_strlit("output_tokens");
    reveal_strlit("total_tokens");
    reveal_strlit("input_tokens_details");
    reveal_strlit("cached_tokens");
    let k1 = "input_tokens"@;
    let k2 = "output_tokens"@;
    let k3 = "total_tokens"@;
    let k4 = "input_tokens_details"@;
    lemma_differ(k1, k2);
    lemma_differ(k1, k3);
    lemma_differ(k1, k4);
    lemma_differ(k2, k3);
    lemma_differ(k2, k4);
    lemma_differ(k3, k4);
    let v3 = JsonV::UInt(vstd::wrapping::u64_specs::wrapping_add(u.input_tokens, u.output_tokens));
    lemma_three_members(k1, JsonV::UInt(u.input_tokens), k2, JsonV::UInt(u.output_tokens), k3, v3, k4);
    let o = JsonV::empty_object().set(k1, JsonV::UInt(u.input_tokens)).set(
        k2,
        JsonV::UInt(u.output_tokens),
    ).set(k3, v3);
    let details = JsonV::empty_object().set("cached_tokens"@, JsonV::UInt(u.cache_read_input_tokens));
    lemma_set_get(JsonV::empty_object(), "cached_tokens"@, JsonV::UInt(u.cache_read_input_tokens), k1);
    lemma_set_get(o, k4, details, k1);
    lemma_set_get(o, k4, details, k2);
}

/// A canonical usage written out as Gemini usage metadata and read back is
/// the same usage, whenever it has no cache-written part (Gemini has none).
pub proof fn law_gemini_usage_round_trip(u: Usage)
    requires
        u.cache_creation_input_tokens == 0,
    ensures
        usage_from_gemini_spec(Some(gemini_usage_spec(u))) == u,
{
    reveal_strlit("promptTokenCount");
    reveal_strlit("candidatesTokenCount");
    reveal_strlit("totalTokenCount");
    reveal_strlit("cachedContentTokenCount");
    let k1 = "promptTokenCount"@;
    let k2 = "candidatesTokenCount"@;
    let k3 = "totalTokenCount"@;
    let k4 = "cachedContentTokenCount"@;
    lemma_differ(k1, k2);
    lemma_differ(k1, k3);
    lemma_differ(k1, k4);
    lemma_differ(k2, k3);
    lemma_differ(k2, k4);
    lemma_differ(k3, k4);
    let v3 = JsonV::UInt(vstd::wrapping::u64_specs::wrapping_add(u.input_tokens, u.output_tokens));
    lemma_three_members(k1, JsonV::UInt(u.input_tokens), k2, JsonV::UInt(u.output_tokens), k3, v3, k4);
    let o = JsonV::empty_object().set(k1, JsonV::UInt(u.input_tokens)).set(
        k2,
        JsonV::UInt(u.output_tokens),
    ).set(k3, v3);
    let k5 = "cached_content_token_count"@;
    reveal_strlit("cached_content_token_count");
    lemma_differ(k1, k5);
    lemma_differ(k2, k5);
    lemma_differ(k3, k5);
    lemma_three_members(k1, JsonV::UInt(u.input_tokens), k2, JsonV::UInt(u.output_tokens), k3, v3, k5);
    let c = JsonV::UInt(u.cache_read_input_tokens);
    lemma_set_get(o, k4, c, k1);
    lemma_set_get(o, k4, c, k2);
}

/// A tool call is announced once: offering the same call again announces
/// nothing.
pub proof fn law_cursor_tool_use_announced_once(s: CursorStateV, d: Members)
    ensures
        emit_tool_use_spec(emit_tool_use_spec(s, d).1, d).0 is None,
{
}

/// The running and thinking notices of a Cursor session come once each.
pub proof fn law_cursor_notices_once(s: CursorStateV)
    ensures
        thinking_spec(thinking_spec(s).1).0 is None,
        running_spec(running_spec(s).1).0 is None,
{
}

/// No event makes the Cursor normalizer forget a call it announced, so over
/// a whole stream each call is announced at most once.
pub proof fn law_cursor_announcements_kept(s: CursorStateV, e: AgentEventV)
    ensures
        s.emitted_tool_uses.subset_of(normalize_spec(s, e).1.emitted_tool_uses),
{
}

/// The OpenCode stream of a session passes only that session's events.
pub proof fn law_opencode_stream_keeps_to_its_session(session_id: Seq<char>, e: AgentEventV)
    ensures
        normalize_event_spec(session_id, e) is Some ==> session_id_spec(e.data) == Some(session_id),
{
}

/// Decimal digits are told apart by their characters.
proof fn lemma_digit_char_injective(a: nat, b: nat)
    requires
        a < 10,
        b < 10,
        digit_char(a) == digit_char(b),
    ensures
        a == b,
{
}

/// A decimal numeral is a non-empty run of digits, none of them NUL.
proof fn lemma_decimal_shape(n: nat)
    ensures
        decimal(n).len() >= 1,
        n >= 10 ==> decimal(n).len() >= 2,
        forall|k: int| 0 <= k < decimal(n).len() ==> #[trigger] decimal(n)[k] != '\0',
    decreases n,
{
    if n >= 10 {
        lemma_decimal_shape(n / 10);
        let d = decimal(n / 10);
        assert forall|k: int| 0 <= k < decimal(n).len() implies #[trigger] decimal(n)[k] != '\0' by {
            if k < d.len() {
                assert(decimal(n)[k] == d[k]);
            }
        }
    }
}

/// Two numbers with the same numeral are the same number.
proof fn lemma_decimal_injective(a: nat, b: nat)
    requires
        decimal(a) == decimal(b),
    ensures
        a == b,
    decreases a,
{
    lemma_decimal_shape(a);
    lemma_decimal_shape(b);
    if a < 10 && b < 10 {
        assert(decimal(a)[0] == digit_char(a));
        assert(decimal(b)[0] == digit_char(b));
        lemma_digit_char_injective(a, b);
    } else if a >= 10 && b >= 10 {
        let da = decimal(a);
        let db = decimal(b);
        assert(da.last() == digit_char(a % 10));
        assert(db.last() == digit_char(b % 10));
        lemma_digit_char_injective(a % 10, b % 10);
        assert(da.drop_last() =~= decimal(a / 10));
        assert(db.drop_last() =~= decimal(b / 10));
        lemma_decimal_injective(a / 10, b / 10);
    } else {
        lemma_decimal_shape(a / 10);
        lemma_decimal_shape(b / 10);
    }
}

/// Gemini calls without an id get one hashed from a seed that starts with
/// the call's ordinal in its turn: two calls of different ordinals have
/// different seeds, whatever their names and arguments. (That their hashes,
/// cut to sixteen hex digits, differ too rests on blake3.)
pub proof fn law_surrogate_seeds_differ_by_ordinal(
    name1: Seq<char>,
    args1: JsonV,
    i: usize,
    name2: Seq<char>,
    args2: JsonV,
    j: usize,
)
    requires
        i != j,
    ensures
        surrogate_seed(name1, args1, i) != surrogate_seed(name2, args2, j),
{
    let d1 = decimal(i as nat);
    let d2 = decimal(j as nat);
    let s1 = surrogate_seed(name1, args1, i);
    let s2 = surrogate_seed(name2, args2, j);
    lemma_decimal_shape(i as nat);
    lemma_decimal_shape(j as nat);
    if s1 == s2 {
        assert(s1[d1.len() as int] == '\0');
        assert(s2[d2.len() as int] == '\0');
        if d1.len() < d2.len() {
            assert(s2[d1.len() as int] == d2[d1.len() as int]);
        } else if d2.len() < d1.len() {
            assert(s1[d2.len() as int] == d1[d2.len() as int]);
        } else {
            assert(s1.take(d1.len() as int) =~= d1);
            assert(s2.take(d2.len() as int) =~= d2);
            lemma_decimal_injective(i as nat, j as nat);
        }
    }
}

/// Text without a line break is one line.
proof fn lemma_split_one_line(s: Seq<char>)
    requires
        forall|i: int| 0 <= i < s.len() ==> s[i] != '\n',
    ensures
        split_nl(s) == seq![s],
    decreases s.len(),
{
    if s.len() > 0 {
        lemma_split_one_line(s.drop_last());
        assert(s.drop_last().push(s.last()) =~= s);
        assert(seq![s.drop_last()].update(0, s) =~= seq![s]);
    } else {
        assert(s =~= Seq::<char>::empty());
    }
}

/// A line break followed by text without one adds that text as a line.
proof fn lemma_split_then_line(a: Seq<char>, b: Seq<char>)
    requires
        forall|i: int| 0 <= i < b.len() ==> b[i] != '\n',
    ensures
        split_nl(a + seq!['\n'] + b) == split_nl(a).push(b),
    decreases b.len(),
{
    let s = a + seq!['\n'] + b;
    if b.len() == 0 {
        assert(s.drop_last() =~= a);
        assert(b =~= Seq::<char>::empty());
    } else {
        lemma_split_then_line(a, b.drop_last());
        assert(s.drop_last() =~= a + seq!['\n'] + b.drop_last());
        let p = split_nl(a).push(b.drop_last());
        assert(b.drop_last().push(b.last()) =~= b);
        assert(p.last() == b.drop_last());
        assert(s.last() == b.last());
        assert(p.update(p.len() - 1, b) =~= split_nl(a).push(b));
    }
}

/// The line an SSE frame carries its data on.
pub open spec fn data_line(data: Seq<char>) -> Seq<char> {
    seq!['d', 'a', 't', 'a', ':', ' '] + data
}

/// The line an SSE frame carries its event name on.
pub open spec fn event_line(name: Seq<char>) -> Seq<char> {
    seq!['e', 'v', 'e', 'n', 't', ':', ' '] + name
}

/// What the data line adds to the fields read so far.
proof fn lemma_step_data_line(acc: (Option<Seq<char>>, Seq<Seq<char>>), data: Seq<char>)
    ensures
        step_line(acc, data_line(data)) == (acc.0, acc.1.push(data)),
{
    let l = data_line(data);
    assert(l[0] == 'd');
    assert(l.take(5) =~= data_prefix());
    assert(l.skip(5) =~= seq![' '] + data);
    assert((seq![' '] + data).skip(1) =~= data);
    if l.len() >= 6 {
        assert(l.take(6)[0] != event_prefix()[0]);
    }
}

/// What the event line sets, for a name that does not start with
/// whitespace.
proof fn lemma_step_event_line(acc: (Option<Seq<char>>, Seq<Seq<char>>), name: Seq<char>)
    requires
        name.len() > 0 ==> !is_ws(name[0]),
    ensures
        step_line(acc, event_line(name)) == (Some(name), acc.1),
{
    let l = event_line(name);
    assert(l.take(6) =~= event_prefix());
    let rest = l.skip(6);
    assert(rest =~= seq![' '] + name);
    assert(rest.drop_first() =~= name);
    assert(crate::text::trim_start_seq(name) == name);
}

/// Every frame the library writes reads back as the event it was written
/// from: the text of its block (all but the blank line that ends it) parses
/// to the same event name and data, whenever neither holds a line break and
/// the name does not start with whitespace.
pub proof fn law_frame_reads_back(event: Option<Seq<char>>, data: Seq<char>)
    requires
        forall|i: int| 0 <= i < data.len() ==> data[i] != '\n' && data[i] != '\r',
        event matches Some(name) ==> (forall|i: int|
            0 <= i < name.len() ==> name[i] != '\n' && name[i] != '\r') && (name.len() > 0
            ==> !is_ws(name[0])),
    ensures
        ({
            let text = frame_text(event, data);
            let block = text.take(text.len() - 2);
            &&& text.skip(text.len() - 2) == seq!['\n', '\n']
            &&& parse_block_spec(block) == Some(SseEventV { event, data })
        }),
{
    let text = frame_text(event, data);
    let block = text.take(text.len() - 2);
    assert(text.skip(text.len() - 2) =~= seq!['\n', '\n']);
    let dl = data_line(data);
    assert forall|i: int| 0 <= i < dl.len() implies dl[i] != '\n' by {
        if i >= 6 {
            assert(dl[i] == data[i - 6]);
        }
    }
    lemma_step_data_line((event, Seq::empty()), data);
    match event {
        Some(name) => {
            let el = event_line(name);
            assert(block =~= el + seq!['\n'] + dl);
            assert forall|i: int| 0 <= i < el.len() implies el[i] != '\n' by {
                if i >= 7 {
                    assert(el[i] == name[i - 7]);
                }
            }
            lemma_split_one_line(el);
            lemma_split_then_line(el, dl);
            let lines = block_lines(block);
            assert(el.last() != '\r') by {
                if name.len() > 0 {
                    assert(el.last() == name[name.len() - 1]);
                }
            }
            assert(strip_cr(el) == el);
            assert(lines =~= seq![el, dl]);
            assert(seq![el, dl].drop_last() =~= seq![el]);
            assert(seq![el].drop_last() =~= Seq::<Seq<char>>::empty());
            lemma_step_event_line((None, Seq::empty()), name);
            assert(fold_lines(Seq::<Seq<char>>::empty()) == (None::<Seq<char>>, Seq::<Seq<char>>::empty()));
            assert(fold_lines(seq![el]) == step_line(fold_lines(Seq::<Seq<char>>::empty()), el));
            assert(fold_lines(seq![el]) == (Some(name), Seq::<Seq<char>>::empty()));
            assert(fold_lines(seq![el, dl]) == step_line(fold_lines(seq![el]), dl));
            assert(fold_lines(lines) == (Some(name), seq![data]));
        },
        None => {
            assert(block =~= dl);
            lemma_split_one_line(dl);
            let lines = block_lines(block);
            assert(lines =~= seq![dl]);
            assert(seq![dl].drop_last() =~= Seq::<Seq<char>>::empty());
            assert(fold_lines(Seq::<Seq<char>>::empty()) == (None::<Seq<char>>, Seq::<Seq<char>>::empty()));
            assert(fold_lines(seq![dl]) == step_line(fold_lines(Seq::<Seq<char>>::empty()), dl));
            assert(Seq::<Seq<char>>::empty().push(data) =~= seq![data]);
            assert(fold_lines(lines) == (None::<Seq<char>>, seq![data]));
        },
    }
    assert(join_nl(seq![data]) == data);
}

/// Every header a codec puts in the exact cache key is one it forwards
/// upstream: only the Responses codec names any, and it forwards each of them.
pub proof fn law_cache_key_headers_are_forwarded(w: WireFormat)
    ensures
        forall|i: int|
            0 <= i < cache_key_headers_for(w).len() ==> w == WireFormat::OpenAiResponses
                && forwarded_names().contains(#[trigger] cache_key_headers_for(w)[i]),
{
    if w == WireFormat::OpenAiResponses {
        assert(forwarded_names()[5] == cache_key_headers_for(w)[0]);
    }
}

/// Entry `i` of the model list declares an exact route.
pub open spec fn exact_entry(entries: Seq<ModelEntryV>, providers: Map<Seq<char>, ProviderV>, i: int) -> bool {
    entry_route(entries[i], providers) is Ok && !is_wildcard(
        entries[i],
        entry_route(entries[i], providers)->Ok_0,
    )
}

/// Entry `i` of the model list declares a wildcard route.
pub open spec fn wildcard_entry(entries: Seq<ModelEntryV>, providers: Map<Seq<char>, ProviderV>, i: int) -> bool {
    entry_route(entries[i], providers) is Ok && is_wildcard(
        entries[i],
        entry_route(entries[i], providers)->Ok_0,
    )
}

/// The last entry that declares an exact route named `name`, or -1.
pub open spec fn last_exact(entries: Seq<ModelEntryV>, providers: Map<Seq<char>, ProviderV>, name: Seq<char>) -> int
    decreases entries.len(),
{
    if entries.len() == 0 {
        -1
    } else if exact_entry(entries, providers, entries.len() - 1) && entries.last().model_name
        == name {
        entries.len() - 1
    } else {
        last_exact(entries.drop_last(), providers, name)
    }
}

/// The last entry that declares a wildcard route for `prefix`, or -1.
pub open spec fn last_wildcard(entries: Seq<ModelEntryV>, providers: Map<Seq<char>, ProviderV>, prefix: Seq<char>) -> int
    decreases entries.len(),
{
    if entries.len() == 0 {
        -1
    } else if wildcard_entry(entries, providers, entries.len() - 1) && trim_end_matches_seq(
        entries.last().model_name,
        "/*"@,
    ) == prefix {
        entries.len() - 1
    } else {
        last_wildcard(entries.drop_last(), providers, prefix)
    }
}

/// How the model list itself says a model is served: by the last exact entry
/// of its name; otherwise by the wildcard entry of its prefix, with the
/// provider prefix taken off the model; otherwise not at all.
pub open spec fn resolve_by_list(
    entries: Seq<ModelEntryV>,
    providers: Map<Seq<char>, ProviderV>,
    model: Seq<char>,
) -> Result<DeploymentV, GatewayErrorV> {
    let i = last_exact(entries, providers, model);
    let j = last_wildcard(entries, providers, model_prefix(model));
    if i >= 0 {
        Ok(entry_route(entries[i], providers)->Ok_0)
    } else if j >= 0 {
        let d = entry_route(entries[j], providers)->Ok_0;
        Ok(DeploymentV { upstream_model: passthrough_spec(model, d.provider_id), ..d })
    } else {
        Err(GatewayErrorV::UnknownModel(model))
    }
}

/// The route tables hold, under each name and prefix, the route of the last
/// entry that declares it.
proof fn lemma_route_tables(
    entries: Seq<ModelEntryV>,
    providers: Map<Seq<char>, ProviderV>,
    name: Seq<char>,
)
    requires
        routes_spec(entries, providers) is Ok,
    ensures
        ({
            let (routes, wildcards) = routes_spec(entries, providers)->Ok_0;
            let i = last_exact(entries, providers, name);
            let j = last_wildcard(entries, providers, name);
            &&& -1 <= i < entries.len()
            &&& -1 <= j < entries.len()
            &&& routes.contains_key(name) == (i >= 0)
            &&& i >= 0 ==> routes[name] == entry_route(entries[i], providers)->Ok_0
            &&& wildcards.contains_key(name) == (j >= 0)
            &&& j >= 0 ==> wildcards[name] == entry_route(entries[j], providers)->Ok_0
        }),
    decreases entries.len(),
{
    if entries.len() > 0 {
        let init = entries.drop_last();
        let k = entries.len() - 1;
        lemma_route_tables(init, providers, name);
        let i0 = last_exact(init, providers, name);
        let j0 = last_wildcard(init, providers, name);
        if i0 >= 0 {
            assert(entries[i0] == init[i0]);
        }
        if j0 >= 0 {
            assert(entries[j0] == init[j0]);
        }
        assert(entries[k] == entries.last());
    }
}

/// Model routing as a whole: a model is served by the last exact entry of
/// its name; otherwise by the wildcard entry of its prefix, with the
/// provider prefix taken off; otherwise it is unknown.
pub proof fn law_routing(
    entries: Seq<ModelEntryV>,
    providers: Map<Seq<char>, ProviderV>,
    model: Seq<char>,
)
    requires
        routes_spec(entries, providers) is Ok,
    ensures
        ({
            let (routes, wildcards) = routes_spec(entries, providers)->Ok_0;
            resolve_spec(routes, wildcards, model) == resolve_by_list(entries, providers, model)
        }),
{
    lemma_route_tables(entries, providers, model);
    lemma_route_tables(entries, providers, model_prefix(model));
}

/// Encoding a concatenation encodes each part in turn.
proof fn lemma_encode_concat(a: Seq<char>, b: Seq<char>)
    ensures
        encode_utf8(a + b) == encode_utf8(a) + encode_utf8(b),
    decreases a.len(),
{
    if a.len() == 0 {
        assert(a + b =~= b);
        assert(encode_utf8(a) =~= Seq::<u8>::empty());
        assert(Seq::<u8>::empty() + encode_utf8(b) =~= encode_utf8(b));
    } else {
        assert((a + b)[0] == a[0]);
        assert((a + b).drop_first() =~= a.drop_first() + b);
        lemma_encode_concat(a.drop_first(), b);
        assert(encode_scalar(a[0] as u32) + (encode_utf8(a.drop_first()) + encode_utf8(b))
            =~= (encode_scalar(a[0] as u32) + encode_utf8(a.drop_first())) + encode_utf8(b));
    }
}

/// An ASCII character is encoded as its own byte.
proof fn lemma_encode_ascii(c: char)
    requires
        (c as u32) < 0x80,
    ensures
        encode_scalar(c as u32) == seq![(c as u32) as u8],
{
    let v = c as u32;
    assert((v & 0x7F) == v) by (bit_vector)
        requires
            v < 0x80,
    ;
}

proof fn lemma_high_bytes(v: u32)
    ensures
        (0x80u8 | ((v & 0x3F) as u8)) >= 0x80,
        (0x80u8 | (((v >> 6) & 0x3F) as u8)) >= 0x80,
        (0x80u8 | (((v >> 12) & 0x3F) as u8)) >= 0x80,
        (0xC0u8 | (((v >> 6) & 0x1F) as u8)) >= 0x80,
        (0xE0u8 | (((v >> 12) & 0x0F) as u8)) >= 0x80,
        (0xF0u8 | (((v >> 18) & 0x7) as u8)) >= 0x80,
{
    let a = (v & 0x3F) as u8;
    let b = ((v >> 6) & 0x3F) as u8;
    let c = ((v >> 12) & 0x3F) as u8;
    let d = ((v >> 6) & 0x1F) as u8;
    let e = ((v >> 12) & 0x0F) as u8;
    let f = ((v >> 18) & 0x7) as u8;
    assert((0x80u8 | a) >= 0x80) by (bit_vector);
    assert((0x80u8 | b) >= 0x80) by (bit_vector);
    assert((0x80u8 | c) >= 0x80) by (bit_vector);
    assert((0xC0u8 | d) >= 0x80) by (bit_vector);
    assert((0xE0u8 | e) >= 0x80) by (bit_vector);
    assert((0xF0u8 | f) >= 0x80) by (bit_vector);
}

/// The encoding of a character other than a line feed or carriage return
/// holds neither byte.
proof fn lemma_encode_no_break(c: char)
    requires
        c != '\n',
        c != '\r',
    ensures
        forall|k: int|
            0 <= k < encode_scalar(c as u32).len() ==> #[trigger] encode_scalar(c as u32)[k]
                != 10u8 && encode_scalar(c as u32)[k] != 13u8,
{
    let v = c as u32;
    if has_width_1_encoding(v) {
        lemma_encode_ascii(c);
        assert(v != 10 && v != 13);
    } else {
        lemma_high_bytes(v);
    }
}

/// Text without line breaks encodes to bytes without line feeds or carriage
/// returns.
proof fn lemma_encode_no_breaks(s: Seq<char>)
    requires
        forall|i: int| 0 <= i < s.len() ==> s[i] != '\n' && s[i] != '\r',
    ensures
        forall|k: int|
            0 <= k < encode_utf8(s).len() ==> #[trigger] encode_utf8(s)[k] != 10u8
                && encode_utf8(s)[k] != 13u8,
    decreases s.len(),
{
    if s.len() > 0 {
        lemma_encode_no_breaks(s.drop_first());
        lemma_encode_no_break(s[0]);
        let h = encode_scalar(s[0] as u32);
        let t = encode_utf8(s.drop_first());
        assert forall|k: int| 0 <= k < encode_utf8(s).len() implies #[trigger] encode_utf8(s)[k]
            != 10u8 && encode_utf8(s)[k] != 13u8 by {
            if k < h.len() {
                assert(encode_utf8(s)[k] == h[k]);
            } else {
                assert(encode_utf8(s)[k] == t[k - h.len()]);
            }
        }
    }
}

/// A line feed is encoded as the byte 10.
proof fn lemma_encode_newline()
    ensures
        encode_scalar('\n' as u32) == seq![10u8],
        encode_utf8(seq!['\n']) == seq![10u8],
{
    lemma_encode_ascii('\n');
    assert(('\n' as u32) == 10u32);
    assert(seq!['\n'].drop_first() =~= Seq::<char>::empty());
    assert(encode_utf8(seq!['\n']) == encode_scalar('\n' as u32) + encode_utf8(Seq::<char>::empty()));
    assert(encode_utf8(seq!['\n']) =~= seq![10u8]);
}

/// Bytes without a carriage return, in which a line feed is never followed
/// by another, end their first block at an appended blank line; that block
/// is all of them and nothing is left over.
proof fn lemma_one_block(b: Seq<u8>)
    requires
        forall|j: int| 0 <= j < b.len() ==> #[trigger] b[j] != 13u8,
        forall|j: int| 0 <= j < b.len() && #[trigger] b[j] == 10u8 ==> j + 1 < b.len() && b[j + 1] != 10u8,
    ensures
        ({
            let f = b + seq![10u8, 10u8];
            &&& block_end(f) == Some((b.len(), b.len() + 2))
            &&& f.take(b.len() as int) == b
            &&& f.subrange(b.len() + 2int, f.len() as int) == Seq::<u8>::empty()
        }),
{
    let f = b + seq![10u8, 10u8];
    assert forall|j: int| 0 <= j < b.len() implies !#[trigger] boundary_at(f, j) by {
        assert(f[j] == b[j]);
        if j + 1 < b.len() {
            assert(f[j + 1] == b[j + 1]);
        }
    }
    assert(boundary_at(f, b.len() as int));
    lemma_scan_is(f, 0, b.len());
    assert(f.take(b.len() as int) =~= b);
    assert(f.subrange(b.len() + 2int, f.len() as int) =~= Seq::<u8>::empty());
}

/// Every frame the library writes is read back by its decoder as exactly the
/// event written, with nothing left over, whenever neither the name nor the
/// data holds a line break and the name does not start with whitespace.
/// (`sse_frame` writes `encode_utf8(frame_text(..))`; `SseDecoder::push`
/// returns `decode_events` of the bytes buffered.)
pub proof fn law_frame_decodes(event: Option<Seq<char>>, data: Seq<char>)
    requires
        forall|i: int| 0 <= i < data.len() ==> data[i] != '\n' && data[i] != '\r',
        event matches Some(name) ==> (forall|i: int|
            0 <= i < name.len() ==> name[i] != '\n' && name[i] != '\r') && (name.len() > 0
            ==> !is_ws(name[0])),
    ensures
        decode_events(encode_utf8(frame_text(event, data))) == seq![SseEventV { event, data }],
        decode_rest(encode_utf8(frame_text(event, data))) == Seq::<u8>::empty(),
{
    law_frame_reads_back(event, data);
    let text = frame_text(event, data);
    let block = text.take(text.len() - 2);
    assert(text =~= block + seq!['\n', '\n']);
    lemma_encode_concat(block, seq!['\n', '\n']);
    lemma_encode_newline();
    assert(seq!['\n', '\n'].drop_first() =~= seq!['\n']);
    assert(encode_utf8(seq!['\n', '\n']) == encode_scalar('\n' as u32) + encode_utf8(seq!['\n']));
    assert(encode_utf8(seq!['\n', '\n']) =~= seq![10u8, 10u8]);
    let b = encode_utf8(block);
    let dl = data_line(data);
    assert forall|i: int| 0 <= i < dl.len() implies dl[i] != '\n' && dl[i] != '\r' by {
        if i >= 6 {
            assert(dl[i] == data[i - 6]);
        }
    }
    lemma_encode_no_breaks(dl);
    lemma_encode_ascii('d');
    assert(dl[0] == 'd');
    assert(encode_utf8(dl)[0] == 100u8);
    match event {
        Some(name) => {
            let el = event_line(name);
            assert forall|i: int| 0 <= i < el.len() implies el[i] != '\n' && el[i] != '\r' by {
                if i >= 7 {
                    assert(el[i] == name[i - 7]);
                }
            }
            assert(block =~= (el + seq!['\n']) + dl);
            lemma_encode_concat(el + seq!['\n'], dl);
            lemma_encode_concat(el, seq!['\n']);
            lemma_encode_no_breaks(el);
            let e1 = encode_utf8(el);
            let e2 = encode_utf8(dl);
            assert(b =~= e1 + seq![10u8] + e2);
            assert forall|j: int| 0 <= j < b.len() implies #[trigger] b[j] != 13u8 by {
                if j < e1.len() {
                    assert(b[j] == e1[j]);
                } else if j > e1.len() {
                    assert(b[j] == e2[j - e1.len() - 1]);
                }
            }
            assert forall|j: int| 0 <= j < b.len() && #[trigger] b[j] == 10u8 implies j + 1
                < b.len() && b[j + 1] != 10u8 by {
                if j < e1.len() {
                    assert(b[j] == e1[j]);
                } else if j > e1.len() {
                    assert(b[j] == e2[j - e1.len() - 1]);
                } else {
                    assert(b[j + 1] == e2[0]);
                }
            }
        },
        None => {
            assert(block =~= dl);
        },
    }
    lemma_one_block(b);
    let f = b + seq![10u8, 10u8];
    assert(encode_utf8(text) == f);
    encode_utf8_valid_utf8(block);
    encode_utf8_decode_utf8(block);
    assert(block_text(b) == block);
    assert(block_end(Seq::<u8>::empty()) is None);
    assert(decode_events(Seq::<u8>::empty()) =~= Seq::<SseEventV>::empty());
    assert(decode_rest(Seq::<u8>::empty()) == Seq::<u8>::empty());
    assert(seq![SseEventV { event, data }] + Seq::<SseEventV>::empty() =~= seq![
        SseEventV { event, data },
    ]);
}

} // verus!
