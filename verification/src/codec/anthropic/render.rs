//! Rendering the IR as Anthropic Messages request and response documents.
use vstd::prelude::*;
use crate::codec::anthropic::blocks::{
    block_to_anthropic_spec, blocks_to_anthropic, blocks_to_anthropic_spec, set_cache_control,
    tool_choice_to_anthropic, tool_choice_to_anthropic_spec, tool_to_anthropic,
    tool_to_anthropic_spec, with_cache_control,
};
use crate::errors::GatewayError;
use crate::ir::{
    ChatRequest, ChatRequestV, ChatResponse, ChatResponseV, Message, MessageV, Role, StopReasonV,
    ToolDef, ToolDefV, Usage, messages_view, stop_to_anthropic, strings_view, tools_view,
};
use crate::json::{Json, JsonV, lemma_view_items, lemma_view_items_add, view_items};
use crate::text::str_eq;
use crate::wire::RequestCtx;

verus! {

broadcast use vstd::string::group_string_axioms;

/// `max_tokens` when the request leaves it out; Anthropic requires one.
pub const DEFAULT_MAX_TOKENS: u64 = 4096;

pub open spec fn u64_or(o: Option<u64>, d: u64) -> u64 {
    match o {
        Some(n) => n,
        None => d,
    }
}

/// The object `o` with `key` bound to `v` when there is one.
pub open spec fn set_opt(o: JsonV, key: Seq<char>, v: Option<JsonV>) -> JsonV {
    match v {
        Some(x) => o.set(key, x),
        None => o,
    }
}

/// `a` with a cache breakpoint on its last element when `on` holds.
pub open spec fn mark_last(a: Seq<JsonV>, on: bool) -> Seq<JsonV> {
    if on && a.len() > 0 {
        a.update(a.len() - 1, with_cache_control(a.last()))
    } else {
        a
    }
}

pub open spec fn role_name(r: Role) -> Seq<char> {
    if r == Role::Assistant {
        "assistant"@
    } else {
        "user"@
    }
}

/// The system blocks, the last one marked when the request caches the system
/// prompt; `None` when there are none.
pub open spec fn render_system_spec(r: ChatRequestV) -> Option<JsonV> {
    if r.system.len() == 0 {
        None
    } else {
        Some(JsonV::Array(mark_last(blocks_to_anthropic_spec(r.system), r.cache_system)))
    }
}

/// The function tools rendered in order; built-in tools are left out.
pub open spec fn function_tools_spec(tools: Seq<ToolDefV>) -> Seq<JsonV>
    decreases tools.len(),
{
    if tools.len() == 0 {
        Seq::empty()
    } else {
        let rest = function_tools_spec(tools.drop_last());
        if tools.last().builtin is None {
            rest.push(tool_to_anthropic_spec(tools.last()))
        } else {
            rest
        }
    }
}

pub open spec fn render_tools_spec(r: ChatRequestV) -> Option<JsonV> {
    let f = function_tools_spec(r.tools);
    if f.len() == 0 {
        None
    } else {
        Some(JsonV::Array(mark_last(f, r.cache_tools)))
    }
}

pub open spec fn render_tool_choice_spec(r: ChatRequestV) -> Option<JsonV> {
    match r.tool_choice {
        None => None,
        Some(tc) => {
            let c = tool_choice_to_anthropic_spec(tc);
            Some(
                if r.parallel_tool_calls == Some(false) {
                    c.set("disable_parallel_tool_use"@, JsonV::Bool(true))
                } else {
                    c
                },
            )
        },
    }
}

/// The extended-thinking budget sent upstream: Anthropic wants
/// `1024 <= budget_tokens < max_tokens`, so a budget under 1024, or a
/// `max_tokens` of 1024 or less, sends none.
pub open spec fn thinking_budget(r: ChatRequestV) -> Option<u64> {
    let mt = u64_or(r.max_tokens, DEFAULT_MAX_TOKENS);
    match r.reasoning {
        Some(c) => {
            let b = c.spec_budget();
            if b >= 1024 && mt > 1024 {
                Some(if b < mt - 1 { b } else { (mt - 1) as u64 })
            } else {
                None
            }
        },
        None => None,
    }
}

/// Thinking, or else the sampling knobs: extended thinking requires the
/// default temperature.
pub open spec fn render_sampling_spec(o: JsonV, r: ChatRequestV) -> JsonV {
    match thinking_budget(r) {
        Some(b) => o.set(
            "thinking"@,
            JsonV::empty_object().set("type"@, JsonV::Str("enabled"@)).set(
                "budget_tokens"@,
                JsonV::UInt(b),
            ),
        ),
        None => set_opt(set_opt(o, "temperature"@, r.temperature), "top_p"@, r.top_p),
    }
}

/// The wire turns of a message list, as role and content blocks: messages
/// with no content are dropped, a message with the role of the turn before it
/// joins that turn, and a message listed in `cache` puts a breakpoint on the
/// last block of the turn it ends in.
pub open spec fn turns_spec(msgs: Seq<MessageV>, cache: Seq<usize>) -> Seq<
    (Seq<char>, Seq<JsonV>),
>
    decreases msgs.len(),
{
    if msgs.len() == 0 {
        Seq::empty()
    } else {
        let prev = turns_spec(msgs.drop_last(), cache);
        let role = role_name(msgs.last().role);
        let blocks = blocks_to_anthropic_spec(msgs.last().content);
        if blocks.len() == 0 {
            prev
        } else {
            let merged = if prev.len() > 0 && prev.last().0 == role {
                prev.update(prev.len() - 1, (role, prev.last().1 + blocks))
            } else {
                prev.push((role, blocks))
            };
            if cache.contains((msgs.len() - 1) as usize) {
                merged.update(
                    merged.len() - 1,
                    (merged.last().0, mark_last(merged.last().1, true)),
                )
            } else {
                merged
            }
        }
    }
}

pub open spec fn turn_json(t: (Seq<char>, Seq<JsonV>)) -> JsonV {
    JsonV::empty_object().set("role"@, JsonV::Str(t.0)).set("content"@, JsonV::Array(t.1))
}

pub open spec fn render_messages_spec(msgs: Seq<MessageV>, cache: Seq<usize>) -> Seq<JsonV> {
    turns_spec(msgs, cache).map_values(|t: (Seq<char>, Seq<JsonV>)| turn_json(t))
}

pub open spec fn strings_json(s: Seq<Seq<char>>) -> Seq<JsonV> {
    s.map_values(|x: Seq<char>| JsonV::Str(x))
}

/// The Anthropic Messages request body for an IR request.
pub open spec fn render_request_spec(r: ChatRequestV) -> JsonV {
    let o0 = JsonV::empty_object().set("model"@, JsonV::Str(r.model)).set(
        "max_tokens"@,
        JsonV::UInt(u64_or(r.max_tokens, DEFAULT_MAX_TOKENS)),
    );
    let o1 = set_opt(o0, "system"@, render_system_spec(r));
    let o2 = o1.set(
        "messages"@,
        JsonV::Array(render_messages_spec(r.messages, r.cache_messages)),
    );
    let o3 = set_opt(o2, "tools"@, render_tools_spec(r));
    let o4 = set_opt(o3, "tool_choice"@, render_tool_choice_spec(r));
    let o5 = render_sampling_spec(o4, r);
    let o6 = if r.stop.len() > 0 {
        o5.set("stop_sequences"@, JsonV::Array(strings_json(r.stop)))
    } else {
        o5
    };
    if r.stream {
        o6.set("stream"@, JsonV::Bool(true))
    } else {
        o6
    }
}

fn mark_last_exec(v: Vec<Json>, on: bool) -> (r: Vec<Json>)
    ensures
        view_items(r@) == mark_last(view_items(v@), on),
{
    proof {
        lemma_view_items(v@);
    }
    if !on || v.len() == 0 {
        return v;
    }
    let ghost orig = v@;
    let mut v = v;
    let last = v.pop().unwrap();
    let marked = set_cache_control(last);
    v.push(marked);
    proof {
        lemma_view_items(v@);
        assert(view_items(v@) =~= mark_last(view_items(orig), on));
    }
    v
}

fn render_system(req: &ChatRequest) -> (r: Option<Json>)
    ensures
        match r {
            Some(j) => render_system_spec(req@) == Some(j@),
            None => render_system_spec(req@) is None,
        },
{
    if req.system.len() == 0 {
        return None;
    }
    let blocks = blocks_to_anthropic(&req.system);
    proof {
        lemma_view_items(blocks@);
    }
    Some(Json::array(mark_last_exec(blocks, req.cache.system)))
}

fn function_tools(tools: &Vec<ToolDef>) -> (r: Vec<Json>)
    ensures
        view_items(r@) == function_tools_spec(tools_view(tools@)),
{
    let ghost tv = tools_view(tools@);
    let mut out: Vec<Json> = Vec::new();
    let mut i: usize = 0;
    while i < tools.len()
        invariant
            i <= tools.len(),
            tv == tools_view(tools@),
            tv.len() == tools.len(),
            view_items(out@) == function_tools_spec(tv.take(i as int)),
        decreases tools.len() - i,
    {
        assert(tv.take(i + 1).drop_last() =~= tv.take(i as int));
        assert(tv.take(i + 1).last() == tools@[i as int]@);
        if tools[i].builtin.is_none() {
            let t = tool_to_anthropic(&tools[i]);
            let ghost prev = out@;
            out.push(t);
            assert(out@.drop_last() == prev);
        }
        i = i + 1;
    }
    assert(tv.take(tools.len() as int) =~= tv);
    out
}

fn render_tools(req: &ChatRequest) -> (r: Option<Json>)
    ensures
        match r {
            Some(j) => render_tools_spec(req@) == Some(j@),
            None => render_tools_spec(req@) is None,
        },
{
    let f = function_tools(&req.tools);
    proof {
        lemma_view_items(f@);
    }
    if f.len() == 0 {
        return None;
    }
    Some(Json::array(mark_last_exec(f, req.cache.tools)))
}

fn render_tool_choice(req: &ChatRequest) -> (r: Option<Json>)
    ensures
        match r {
            Some(j) => render_tool_choice_spec(req@) == Some(j@),
            None => render_tool_choice_spec(req@) is None,
        },
{
    let tc = match &req.tool_choice {
        Some(tc) => tc,
        None => return None,
    };
    let choice = tool_choice_to_anthropic(tc);
    if req.parallel_tool_calls == Some(false) {
        Some(choice.set("disable_parallel_tool_use", Json::Bool(true)))
    } else {
        Some(choice)
    }
}

fn opt_clone(o: &Option<Json>) -> (r: Option<Json>)
    ensures
        match r {
            Some(j) => *o matches Some(x) && j@ == x@,
            None => o is None,
        },
{
    match o {
        Some(j) => Some(j.clone()),
        None => None,
    }
}

fn set_opt_exec(o: Json, key: &str, v: Option<Json>) -> (r: Json)
    requires
        o@ is Object,
    ensures
        r@ == set_opt(
            o@,
            key@,
            match v {
                Some(x) => Some(x@),
                None => None,
            },
        ),
        r@ is Object,
{
    match v {
        Some(x) => o.set(key, x),
        None => o,
    }
}

fn render_sampling(req: &ChatRequest, obj: Json) -> (r: Json)
    requires
        obj@ is Object,
    ensures
        r@ == render_sampling_spec(obj@, req@),
        r@ is Object,
{
    let mt = match req.max_tokens {
        Some(n) => n,
        None => DEFAULT_MAX_TOKENS,
    };
    if let Some(rc) = &req.reasoning {
        let budget = rc.derived_budget();
        if budget >= 1024 && mt > 1024 {
            let b = if budget < mt - 1 {
                budget
            } else {
                mt - 1
            };
            return obj.set(
                "thinking",
                Json::object().set("type", Json::str("enabled")).set("budget_tokens", Json::uint(b)),
            );
        }
    }
    let o = set_opt_exec(obj, "temperature", opt_clone(&req.temperature));
    set_opt_exec(o, "top_p", opt_clone(&req.top_p))
}

fn index_listed(v: &Vec<usize>, x: usize) -> (r: bool)
    ensures
        r == v@.contains(x),
{
    let mut i: usize = 0;
    while i < v.len()
        invariant
            i <= v.len(),
            forall|k: int| 0 <= k < i ==> v@[k] != x,
        decreases v.len() - i,
    {
        if v[i] == x {
            assert(v@[i as int] == x);
            return true;
        }
        i = i + 1;
    }
    false
}

pub open spec fn turns_view(t: Seq<(&str, Vec<Json>)>) -> Seq<(Seq<char>, Seq<JsonV>)> {
    t.map_values(|p: (&str, Vec<Json>)| (p.0@, view_items(p.1@)))
}

fn render_messages(messages: &Vec<Message>, cache_idx: &Vec<usize>) -> (r: Vec<Json>)
    ensures
        view_items(r@) == render_messages_spec(messages_view(messages@), cache_idx@),
{
    let ghost mv = messages_view(messages@);
    let mut turns: Vec<(&str, Vec<Json>)> = Vec::new();
    let mut i: usize = 0;
    while i < messages.len()
        invariant
            i <= messages.len(),
            mv == messages_view(messages@),
            mv.len() == messages.len(),
            turns_view(turns@) == turns_spec(mv.take(i as int), cache_idx@),
        decreases messages.len() - i,
    {
        let ghost pre = mv.take(i as int);
        assert(mv.take(i + 1).drop_last() =~= pre);
        assert(mv.take(i + 1).last() == messages@[i as int]@);
        assert(mv.take(i + 1).len() - 1 == i);
        let msg = &messages[i];
        let role = msg.role.as_anthropic();
        let mut blocks = blocks_to_anthropic(&msg.content);
        proof {
            lemma_view_items(blocks@);
        }
        if blocks.len() > 0 {
            let n = turns.len();
            let joins = n > 0 && str_eq(turns[n - 1].0, role);
            if joins {
                let (r0, mut last) = turns.pop().unwrap();
                let ghost lb = last@;
                let ghost bb = blocks@;
                last.append(&mut blocks);
                proof {
                    lemma_view_items_add(lb, bb);
                }
                turns.push((r0, last));
            } else {
                turns.push((role, blocks));
            }
            assert(turns_view(turns@) =~= {
                let prev = turns_spec(pre, cache_idx@);
                let rl = role_name(messages@[i as int]@.role);
                let bl = blocks_to_anthropic_spec(messages@[i as int]@.content);
                if prev.len() > 0 && prev.last().0 == rl {
                    prev.update(prev.len() - 1, (rl, prev.last().1 + bl))
                } else {
                    prev.push((rl, bl))
                }
            });
            if index_listed(cache_idx, i) {
                let ghost before = turns_view(turns@);
                let (r0, last) = turns.pop().unwrap();
                let marked = mark_last_exec(last, true);
                turns.push((r0, marked));
                assert(turns_view(turns@) =~= before.update(
                    before.len() - 1,
                    (before.last().0, mark_last(before.last().1, true)),
                ));
            }
        }
        i = i + 1;
    }
    assert(mv.take(messages.len() as int) =~= mv);
    let ghost tv = turns_view(turns@);
    let mut out: Vec<Json> = Vec::new();
    let mut k: usize = 0;
    while k < turns.len()
        invariant
            k <= turns.len(),
            tv == turns_view(turns@),
            view_items(out@) == tv.take(k as int).map_values(
                |t: (Seq<char>, Seq<JsonV>)| turn_json(t),
            ),
        decreases turns.len() - k,
    {
        let (role, content) = (turns[k].0, clone_jsons(&turns[k].1));
        let j = Json::object().set("role", Json::str(role)).set("content", Json::array(content));
        let ghost prev = out@;
        out.push(j);
        assert(out@.drop_last() == prev);
        assert(tv.take(k + 1).map_values(|t: (Seq<char>, Seq<JsonV>)| turn_json(t)) =~= tv.take(
            k as int,
        ).map_values(|t: (Seq<char>, Seq<JsonV>)| turn_json(t)).push(turn_json(tv[k as int])));
        k = k + 1;
    }
    assert(tv.take(turns.len() as int) =~= tv);
    out
}

fn clone_jsons(v: &Vec<Json>) -> (r: Vec<Json>)
    ensures
        view_items(r@) == view_items(v@),
{
    let mut out: Vec<Json> = Vec::new();
    let mut i: usize = 0;
    while i < v.len()
        invariant
            i <= v.len(),
            view_items(out@) == view_items(v@.take(i as int)),
        decreases v.len() - i,
    {
        assert(v@.take(i + 1).drop_last() =~= v@.take(i as int));
        let c = v[i].clone();
        let ghost prev = out@;
        out.push(c);
        assert(out@.drop_last() == prev);
        i = i + 1;
    }
    assert(v@.take(v.len() as int) =~= v@);
    out
}

fn strings_to_json(s: &Vec<String>) -> (r: Vec<Json>)
    ensures
        view_items(r@) == strings_json(strings_view(s@)),
{
    let mut out: Vec<Json> = Vec::new();
    let mut i: usize = 0;
    while i < s.len()
        invariant
            i <= s.len(),
            view_items(out@) == strings_json(strings_view(s@.take(i as int))),
        decreases s.len() - i,
    {
        assert(s@.take(i + 1) =~= s@.take(i as int).push(s@[i as int]));
        assert(strings_view(s@.take(i + 1)) =~= strings_view(s@.take(i as int)).push(
            s@[i as int]@,
        ));
        let c = s[i].clone();
        assert(c@ == s@[i as int]@);
        let ghost prev = out@;
        out.push(Json::Str(c));
        assert(out@.drop_last() == prev);
        assert(out@.last()@ == JsonV::Str(s@[i as int]@));
        assert(view_items(out@) == view_items(prev).push(JsonV::Str(s@[i as int]@)));
        assert(strings_json(strings_view(s@.take(i + 1))) =~= strings_json(
            strings_view(s@.take(i as int)),
        ).push(JsonV::Str(s@[i as int]@)));
        i = i + 1;
    }
    assert(s@.take(s.len() as int) =~= s@);
    out
}

/// Outbound: the IR request as an Anthropic Messages request body.
pub fn render_request(req: &ChatRequest) -> (r: Result<Json, GatewayError>)
    ensures
        r matches Ok(j) && j@ == render_request_spec(req@),
{
    let mt = match req.max_tokens {
        Some(n) => n,
        None => DEFAULT_MAX_TOKENS,
    };
    let o = Json::object().set("model", Json::Str(req.model.clone())).set(
        "max_tokens",
        Json::uint(mt),
    );
    let o = set_opt_exec(o, "system", render_system(req));
    let o = o.set("messages", Json::array(render_messages(&req.messages, &req.cache.messages)));
    let o = set_opt_exec(o, "tools", render_tools(req));
    let o = set_opt_exec(o, "tool_choice", render_tool_choice(req));
    let o = render_sampling(req, o);
    let o = if req.stop.len() > 0 {
        o.set("stop_sequences", Json::array(strings_to_json(&req.stop)))
    } else {
        o
    };
    let o = if req.stream {
        o.set("stream", Json::Bool(true))
    } else {
        o
    };
    Ok(o)
}

pub open spec fn stop_json(s: Option<StopReasonV>) -> JsonV {
    match s {
        Some(r) => JsonV::Str(stop_to_anthropic(r)),
        None => JsonV::Null,
    }
}

/// Anthropic reports `input_tokens` as the part after the cache breakpoint.
pub open spec fn usage_json(u: Usage) -> JsonV {
    JsonV::empty_object().set("input_tokens"@, JsonV::UInt(u.spec_non_cached())).set(
        "output_tokens"@,
        JsonV::UInt(u.output_tokens),
    ).set("cache_creation_input_tokens"@, JsonV::UInt(u.cache_creation_input_tokens)).set(
        "cache_read_input_tokens"@,
        JsonV::UInt(u.cache_read_input_tokens),
    )
}

/// The Anthropic Messages response body for an IR response.
pub open spec fn render_response_spec(r: ChatResponseV, model: Seq<char>) -> JsonV {
    JsonV::empty_object().set(
        "id"@,
        JsonV::Str(if r.id.len() == 0 { "msg_litellm"@ } else { r.id }),
    ).set("type"@, JsonV::Str("message"@)).set("role"@, JsonV::Str("assistant"@)).set(
        "model"@,
        JsonV::Str(model),
    ).set("content"@, JsonV::Array(blocks_to_anthropic_spec(r.content))).set(
        "stop_reason"@,
        stop_json(r.stop_reason),
    ).set("stop_sequence"@, JsonV::Null).set("usage"@, usage_json(r.usage))
}

/// Inbound: the IR response as an Anthropic Messages response body.
pub fn render_response(resp: &ChatResponse, ctx: &RequestCtx) -> (r: Result<Json, GatewayError>)
    ensures
        r matches Ok(j) && j@ == render_response_spec(resp@, ctx.model@),
{
    let id = if resp.id.as_str().is_empty() {
        Json::str("msg_litellm")
    } else {
        Json::Str(resp.id.clone())
    };
    let stop = match &resp.stop_reason {
        Some(s) => Json::Str(s.to_anthropic()),
        None => Json::Null,
    };
    let u = &resp.usage;
    let usage = Json::object().set("input_tokens", Json::uint(u.non_cached_input_tokens())).set(
        "output_tokens",
        Json::uint(u.output_tokens),
    ).set("cache_creation_input_tokens", Json::uint(u.cache_creation_input_tokens)).set(
        "cache_read_input_tokens",
        Json::uint(u.cache_read_input_tokens),
    );
    Ok(
        Json::object().set("id", id).set("type", Json::str("message")).set(
            "role",
            Json::str("assistant"),
        ).set("model", Json::Str(ctx.model.clone())).set(
            "content",
            Json::array(blocks_to_anthropic(&resp.content)),
        ).set("stop_reason", stop).set("stop_sequence", Json::Null).set("usage", usage),
    )
}

} // verus!
