//! Anthropic request/response parsing into the IR.
use vstd::prelude::*;
use crate::codec::anthropic::blocks::{
    any_cache_control, array_has_cache_control, block_from_anthropic, blocks_from_anthropic,
    blocks_from_anthropic_spec, message_cache_control, message_from_anthropic,
    message_from_anthropic_spec, message_has_cache_control, opt_format_view, opt_json,
    response_format_from_anthropic, response_format_from_anthropic_spec, tool_from_anthropic,
    tool_from_anthropic_spec, usage_from_anthropic, usage_from_anthropic_spec,
};
use crate::codec::common::{names_view, strip_known, without_keys};
use crate::errors::{GatewayError, GatewayErrorV};
use crate::ir::{
    BlockV, CacheMarkers, ChatRequest, ChatRequestV, ChatResponse, ChatResponseV, ContentBlock,
    Message, MessageV, ReasoningConfig, StopReason, ToolChoice, ToolChoiceV, ToolDef, ToolDefV,
    blocks_view, messages_view, opt_json_view, stop_from_anthropic, strings_view, tools_view,
};
use crate::json::{Json, JsonV, lemma_view_items, view_entries, view_items};
use crate::text::str_eq;

verus! {

broadcast use vstd::string::group_string_axioms;

/// The top-level request members this codec reads; the rest travel in
/// `extra`.
pub open spec fn known_request_keys() -> Seq<Seq<char>> {
    seq![
        "model"@,
        "system"@,
        "messages"@,
        "tools"@,
        "tool_choice"@,
        "thinking"@,
        "output_config"@,
        "output_format"@,
        "max_tokens"@,
        "temperature"@,
        "top_p"@,
        "stop_sequences"@,
        "stream"@,
    ]
}

fn known_request_keys_exec() -> (r: Vec<&'static str>)
    ensures
        names_view(r@) == known_request_keys(),
{
    let r = vec![
        "model",
        "system",
        "messages",
        "tools",
        "tool_choice",
        "thinking",
        "output_config",
        "output_format",
        "max_tokens",
        "temperature",
        "top_p",
        "stop_sequences",
        "stream",
    ];
    assert(names_view(r@) =~= known_request_keys());
    r
}

pub open spec fn system_spec(raw: Option<JsonV>) -> (Seq<BlockV>, bool) {
    match raw {
        Some(JsonV::Str(s)) => (seq![BlockV::Text { text: s }], false),
        Some(JsonV::Array(a)) => (blocks_from_anthropic_spec(a), any_cache_control(a)),
        _ => (Seq::empty(), false),
    }
}

/// The messages of a raw message array, with the indices (among the kept
/// messages) of those carrying a cache breakpoint.
pub open spec fn messages_spec(a: Seq<JsonV>) -> (Seq<MessageV>, Seq<usize>)
    decreases a.len(),
{
    if a.len() == 0 {
        (Seq::empty(), Seq::empty())
    } else {
        let (ms, idx) = messages_spec(a.drop_last());
        match message_from_anthropic_spec(a.last()) {
            Some(m) => (
                ms.push(m),
                if message_cache_control(a.last()) {
                    idx.push(ms.len() as usize)
                } else {
                    idx
                },
            ),
            None => (ms, idx),
        }
    }
}

pub open spec fn tools_spec(a: Seq<JsonV>) -> Seq<ToolDefV>
    decreases a.len(),
{
    if a.len() == 0 {
        Seq::empty()
    } else {
        let r = tools_spec(a.drop_last());
        match tool_from_anthropic_spec(a.last()) {
            Some(t) => r.push(t),
            None => r,
        }
    }
}

pub open spec fn tool_choice_spec(raw: Option<JsonV>) -> (Option<ToolChoiceV>, Option<bool>) {
    match raw {
        None => (None, None),
        Some(tc) => (
            if tc is Object {
                match tc.get_str("type"@) {
                    Some(t) => if t == "auto"@ {
                        Some(ToolChoiceV::Auto)
                    } else if t == "any"@ {
                        Some(ToolChoiceV::Required)
                    } else if t == "none"@ {
                        Some(ToolChoiceV::NoTools)
                    } else if t == "tool"@ {
                        match tc.get_str("name"@) {
                            Some(n) => Some(ToolChoiceV::Tool(n)),
                            None => None,
                        }
                    } else {
                        None
                    },
                    None => None,
                }
            } else {
                None
            },
            match tc.get_bool("disable_parallel_tool_use"@) {
                Some(disabled) => Some(!disabled),
                None => None,
            },
        ),
    }
}

pub open spec fn reasoning_spec(raw: Option<JsonV>) -> Option<ReasoningConfig> {
    match raw {
        None => None,
        Some(t) => if t.get_str("type"@) == Some("enabled"@) || t.get_u64("budget_tokens"@) is Some {
            Some(ReasoningConfig { effort: None, budget_tokens: t.get_u64("budget_tokens"@) })
        } else {
            None
        },
    }
}

/// The strings of a raw array; anything else gives none.
pub open spec fn strings_of(a: Seq<JsonV>) -> Seq<Seq<char>>
    decreases a.len(),
{
    if a.len() == 0 {
        Seq::empty()
    } else {
        let r = strings_of(a.drop_last());
        match a.last() {
            JsonV::Str(s) => r.push(s),
            _ => r,
        }
    }
}

pub open spec fn stop_spec(raw: Option<JsonV>) -> Seq<Seq<char>> {
    match raw {
        Some(JsonV::Array(a)) => strings_of(a),
        _ => Seq::empty(),
    }
}

/// The response format: `output_format`, else `output_config.format`.
pub open spec fn format_raw(body: JsonV) -> Option<JsonV> {
    match body.get("output_format"@) {
        Some(f) => Some(f),
        None => match body.get("output_config"@) {
            Some(oc) => oc.get("format"@),
            None => None,
        },
    }
}

pub open spec fn number_of(raw: Option<JsonV>) -> Option<JsonV> {
    match raw {
        Some(v) => v.as_number(),
        None => None,
    }
}

/// The IR request an Anthropic Messages body spells.
pub open spec fn parse_request_spec(body: JsonV) -> Result<ChatRequestV, GatewayErrorV> {
    match body {
        JsonV::Object(e) => {
            let (system, system_cached) = system_spec(body.get("system"@));
            let (messages, cache_idx) = match body.get("messages"@) {
                Some(JsonV::Array(a)) => messages_spec(a),
                _ => (Seq::empty(), Seq::empty()),
            };
            let (tools, tools_cached) = match body.get("tools"@) {
                Some(JsonV::Array(a)) => (tools_spec(a), any_cache_control(a)),
                _ => (Seq::empty(), false),
            };
            let (tool_choice, parallel) = tool_choice_spec(body.get("tool_choice"@));
            Ok(
                ChatRequestV {
                    model: body.str_at("model"@),
                    system,
                    messages,
                    tools,
                    tool_choice,
                    cache_tools: tools_cached,
                    cache_system: system_cached,
                    cache_messages: cache_idx,
                    parallel_tool_calls: parallel,
                    response_format: match format_raw(body) {
                        Some(f) => response_format_from_anthropic_spec(f),
                        None => None,
                    },
                    reasoning: reasoning_spec(body.get("thinking"@)),
                    max_tokens: body.get_u64("max_tokens"@),
                    temperature: number_of(body.get("temperature"@)),
                    top_p: number_of(body.get("top_p"@)),
                    stop: stop_spec(body.get("stop_sequences"@)),
                    stream: match body.get_bool("stream"@) {
                        Some(b) => b,
                        None => false,
                    },
                    extra: without_keys(e, known_request_keys()),
                },
            )
        },
        _ => Err(GatewayErrorV::InvalidJsonMessage("request body must be a JSON object"@)),
    }
}

pub open spec fn request_result_view(r: Result<ChatRequest, GatewayError>) -> Result<
    ChatRequestV,
    GatewayErrorV,
> {
    match r {
        Ok(q) => Ok(q@),
        Err(e) => Err(e@),
    }
}

fn parse_system(raw: Option<&Json>) -> (r: (Vec<ContentBlock>, bool))
    ensures
        (blocks_view(r.0@), r.1) == system_spec(opt_json(raw)),
{
    match raw {
        Some(Json::Str(s)) => {
            let v = vec![ContentBlock::Text { text: s.clone() }];
            proof {
                crate::ir::lemma_blocks_view(v@);
                assert(blocks_view(v@) =~= seq![v@[0]@]);
            }
            (v, false)
        },
        Some(Json::Array(a)) => (blocks_from_anthropic(a), array_has_cache_control(a)),
        _ => (Vec::new(), false),
    }
}

fn parse_messages(raw: Option<&Json>) -> (r: (Vec<Message>, Vec<usize>))
    ensures
        (messages_view(r.0@), r.1@) == match opt_json(raw) {
            Some(JsonV::Array(a)) => messages_spec(a),
            _ => (Seq::<MessageV>::empty(), Seq::<usize>::empty()),
        },
{
    let a = match raw {
        Some(Json::Array(a)) => a,
        _ => return (Vec::new(), Vec::new()),
    };
    let ghost items = view_items(a@);
    proof {
        lemma_view_items(a@);
    }
    let mut out: Vec<Message> = Vec::new();
    let mut idx: Vec<usize> = Vec::new();
    let mut i: usize = 0;
    while i < a.len()
        invariant
            i <= a.len(),
            items == view_items(a@),
            items.len() == a.len(),
            forall|k: int| 0 <= k < a.len() ==> #[trigger] items[k] == a@[k]@,
            (messages_view(out@), idx@) == messages_spec(items.take(i as int)),
        decreases a.len() - i,
    {
        assert(items.take(i + 1).drop_last() =~= items.take(i as int));
        assert(items.take(i + 1).last() == a@[i as int]@);
        match message_from_anthropic(&a[i]) {
            Some(m) => {
                if message_has_cache_control(&a[i]) {
                    idx.push(out.len());
                }
                let ghost prev = out@;
                out.push(m);
                assert(messages_view(out@) =~= messages_view(prev).push(m@));
            },
            None => {},
        }
        i = i + 1;
    }
    assert(items.take(a.len() as int) =~= items);
    (out, idx)
}

fn parse_tools(raw: Option<&Json>) -> (r: (Vec<ToolDef>, bool))
    ensures
        (tools_view(r.0@), r.1) == match opt_json(raw) {
            Some(JsonV::Array(a)) => (tools_spec(a), any_cache_control(a)),
            _ => (Seq::<ToolDefV>::empty(), false),
        },
{
    let a = match raw {
        Some(Json::Array(a)) => a,
        _ => return (Vec::new(), false),
    };
    let ghost items = view_items(a@);
    proof {
        lemma_view_items(a@);
    }
    let mut out: Vec<ToolDef> = Vec::new();
    let mut i: usize = 0;
    while i < a.len()
        invariant
            i <= a.len(),
            items == view_items(a@),
            items.len() == a.len(),
            forall|k: int| 0 <= k < a.len() ==> #[trigger] items[k] == a@[k]@,
            tools_view(out@) == tools_spec(items.take(i as int)),
        decreases a.len() - i,
    {
        assert(items.take(i + 1).drop_last() =~= items.take(i as int));
        assert(items.take(i + 1).last() == a@[i as int]@);
        match tool_from_anthropic(&a[i]) {
            Some(t) => {
                let ghost prev = out@;
                out.push(t);
                assert(tools_view(out@) =~= tools_view(prev).push(t@));
            },
            None => {},
        }
        i = i + 1;
    }
    assert(items.take(a.len() as int) =~= items);
    (out, array_has_cache_control(a))
}

fn parse_tool_choice(raw: Option<&Json>) -> (r: (Option<ToolChoice>, Option<bool>))
    ensures
        (
            match r.0 {
                Some(t) => Some(t@),
                None => None,
            },
            r.1,
        ) == tool_choice_spec(opt_json(raw)),
{
    let tc = match raw {
        Some(tc) => tc,
        None => return (None, None),
    };
    let parallel = match tc.get_bool("disable_parallel_tool_use") {
        Some(disabled) => Some(!disabled),
        None => None,
    };
    if !tc.is_object() {
        return (None, parallel);
    }
    let choice = match tc.get_str("type") {
        Some(t) => if str_eq(t.as_str(), "auto") {
            Some(ToolChoice::Auto)
        } else if str_eq(t.as_str(), "any") {
            Some(ToolChoice::Required)
        } else if str_eq(t.as_str(), "none") {
            Some(ToolChoice::NoTools)
        } else if str_eq(t.as_str(), "tool") {
            match tc.get_str("name") {
                Some(n) => Some(ToolChoice::Tool(n.clone())),
                None => None,
            }
        } else {
            None
        },
        None => None,
    };
    (choice, parallel)
}

fn parse_reasoning(raw: Option<&Json>) -> (r: Option<ReasoningConfig>)
    ensures
        r == reasoning_spec(opt_json(raw)),
{
    let t = match raw {
        Some(t) => t,
        None => return None,
    };
    let enabled = match t.get_str("type") {
        Some(s) => str_eq(s.as_str(), "enabled"),
        None => false,
    };
    let budget = t.get_u64("budget_tokens");
    if enabled || budget.is_some() {
        Some(ReasoningConfig { effort: None, budget_tokens: budget })
    } else {
        None
    }
}

pub fn strings_from(a: &Vec<Json>) -> (r: Vec<String>)
    ensures
        strings_view(r@) == strings_of(view_items(a@)),
{
    let ghost items = view_items(a@);
    proof {
        lemma_view_items(a@);
    }
    let mut out: Vec<String> = Vec::new();
    let mut i: usize = 0;
    while i < a.len()
        invariant
            i <= a.len(),
            items == view_items(a@),
            items.len() == a.len(),
            forall|k: int| 0 <= k < a.len() ==> #[trigger] items[k] == a@[k]@,
            strings_view(out@) == strings_of(items.take(i as int)),
        decreases a.len() - i,
    {
        assert(items.take(i + 1).drop_last() =~= items.take(i as int));
        assert(items.take(i + 1).last() == a@[i as int]@);
        match a[i].as_str() {
            Some(s) => {
                let ghost prev = out@;
                out.push(s.clone());
                assert(strings_view(out@) =~= strings_view(prev).push(s@));
            },
            None => {},
        }
        i = i + 1;
    }
    assert(items.take(a.len() as int) =~= items);
    out
}

fn parse_stop(raw: Option<&Json>) -> (r: Vec<String>)
    ensures
        strings_view(r@) == stop_spec(opt_json(raw)),
{
    match raw {
        Some(Json::Array(a)) => strings_from(a),
        _ => Vec::new(),
    }
}

fn number_from(raw: Option<&Json>) -> (r: Option<Json>)
    ensures
        opt_json_view(r) == number_of(opt_json(raw)),
{
    match raw {
        Some(v) => if v.is_number() {
            Some(v.clone())
        } else {
            None
        },
        None => None,
    }
}

/// Inbound: an Anthropic Messages request body to the IR.
pub fn parse_request(body: Json) -> (r: Result<ChatRequest, GatewayError>)
    ensures
        request_result_view(r) == parse_request_spec(body@),
{
    let entries = match &body {
        Json::Object(e) => e,
        _ => {
            return Err(
                GatewayError::InvalidJsonMessage(
                    crate::text::owned("request body must be a JSON object"),
                ),
            );
        },
    };
    let (system, system_cached) = parse_system(body.get("system"));
    let (messages, cache_idx) = parse_messages(body.get("messages"));
    let (tools, tools_cached) = parse_tools(body.get("tools"));
    let (tool_choice, parallel_tool_calls) = parse_tool_choice(body.get("tool_choice"));
    let format_raw = match body.get("output_format") {
        Some(f) => Some(f),
        None => match body.get("output_config") {
            Some(oc) => oc.get("format"),
            None => None,
        },
    };
    let response_format = match format_raw {
        Some(f) => response_format_from_anthropic(f),
        None => None,
    };
    let known = known_request_keys_exec();
    let extra = strip_known(entries, known.as_slice());
    Ok(
        ChatRequest {
            model: body.str_at("model"),
            system,
            messages,
            tools,
            tool_choice,
            cache: CacheMarkers { tools: tools_cached, system: system_cached, messages: cache_idx },
            parallel_tool_calls,
            response_format,
            reasoning: parse_reasoning(body.get("thinking")),
            max_tokens: body.get_u64("max_tokens"),
            temperature: number_from(body.get("temperature")),
            top_p: number_from(body.get("top_p")),
            stop: parse_stop(body.get("stop_sequences")),
            stream: match body.get_bool("stream") {
                Some(b) => b,
                None => false,
            },
            extra,
        },
    )
}

/// The IR response an Anthropic Messages response body spells.
pub open spec fn parse_response_spec(body: JsonV) -> Result<ChatResponseV, GatewayErrorV> {
    if body is Object {
        Ok(
            ChatResponseV {
                id: body.str_at("id"@),
                model: body.str_at("model"@),
                content: match body.get_array("content"@) {
                    Some(a) => blocks_from_anthropic_spec(a),
                    None => Seq::empty(),
                },
                stop_reason: match body.get_str("stop_reason"@) {
                    Some(s) => Some(stop_from_anthropic(s)),
                    None => None,
                },
                usage: usage_from_anthropic_spec(body.get("usage"@)),
            },
        )
    } else {
        Err(GatewayErrorV::InvalidJsonMessage("response body must be a JSON object"@))
    }
}

pub open spec fn response_result_view(r: Result<ChatResponse, GatewayError>) -> Result<
    ChatResponseV,
    GatewayErrorV,
> {
    match r {
        Ok(q) => Ok(q@),
        Err(e) => Err(e@),
    }
}

/// Outbound: an Anthropic Messages response body to the IR.
pub fn parse_response(body: Json) -> (r: Result<ChatResponse, GatewayError>)
    ensures
        response_result_view(r) == parse_response_spec(body@),
{
    if !body.is_object() {
        return Err(
            GatewayError::InvalidJsonMessage(
                crate::text::owned("response body must be a JSON object"),
            ),
        );
    }
    let content = match body.get_array("content") {
        Some(a) => blocks_from_anthropic(a),
        None => Vec::new(),
    };
    Ok(
        ChatResponse {
            id: body.str_at("id"),
            model: body.str_at("model"),
            content,
            stop_reason: match body.get_str("stop_reason") {
                Some(s) => Some(StopReason::from_anthropic(s.as_str())),
                None => None,
            },
            usage: usage_from_anthropic(body.get("usage")),
        },
    )
}

} // verus!
