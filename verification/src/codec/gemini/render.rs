//! Rendering the IR as Gemini request and response documents.
use vstd::prelude::*;
use crate::codec::anthropic::render::{set_opt, strings_json};
use crate::codec::common::{join_text, join_text_spec};
use crate::codec::gemini::common::{gemini_usage, gemini_usage_spec};
use crate::codec::gemini::parts::{
    block_to_part, block_to_part_spec, obj1, response_object, response_object_spec,
};
use crate::errors::GatewayError;
use crate::ir::{
    BlockV, ChatRequest, ChatRequestV, ChatResponse, ChatResponseV, ContentBlock, Message,
    MessageV, ResponseFormat, ResponseFormatV, Role, StopReason, StopReasonV, ToolChoice,
    ToolChoiceV, ToolDef, ToolDefV, blocks_view, lemma_blocks_view, messages_view, names_contain,
    opt_json_view, stop_to_gemini, strings_view, tools_view,
};
use crate::json::{Json, JsonV, lemma_view_items, lemma_view_items_add, view_items};
use crate::table::Table;
use crate::text::{owned, str_eq};
use crate::wire::RequestCtx;

verus! {

broadcast use vstd::string::group_string_axioms;

// ---- tool names --------------------------------------------------------------------

/// `m` with each tool use of `bs` mapping its id to its function name, later
/// uses winning.
pub open spec fn names_in(m: Map<Seq<char>, Seq<char>>, bs: Seq<BlockV>) -> Map<Seq<char>, Seq<char>>
    decreases bs.len(),
{
    if bs.len() == 0 {
        m
    } else {
        let r = names_in(m, bs.drop_last());
        match bs.last() {
            BlockV::ToolUse { id, name, input: _ } => r.insert(id, name),
            _ => r,
        }
    }
}

/// Tool-use ids mapped to function names over a whole history: Gemini matches
/// a result to its call by name.
pub open spec fn tool_name_map_spec(msgs: Seq<MessageV>) -> Map<Seq<char>, Seq<char>>
    decreases msgs.len(),
{
    if msgs.len() == 0 {
        Map::empty()
    } else {
        names_in(tool_name_map_spec(msgs.drop_last()), msgs.last().content)
    }
}

fn add_names(t: &mut Table<String>, bs: &Vec<ContentBlock>)
    ensures
        final(t)@ == names_in(old(t)@, blocks_view(bs@)),
{
    let ghost bv = blocks_view(bs@);
    let ghost start = t@;
    proof {
        lemma_blocks_view(bs@);
    }
    let mut i: usize = 0;
    while i < bs.len()
        invariant
            i <= bs.len(),
            bv == blocks_view(bs@),
            bv.len() == bs.len(),
            forall|k: int| 0 <= k < bs.len() ==> #[trigger] bv[k] == bs@[k]@,
            t@ == names_in(start, bv.take(i as int)),
        decreases bs.len() - i,
    {
        assert(bv.take(i + 1).drop_last() =~= bv.take(i as int));
        assert(bv.take(i + 1).last() == bs@[i as int]@);
        if let ContentBlock::ToolUse { id, name, input: _ } = &bs[i] {
            t.insert(id.clone(), name.clone());
        }
        i = i + 1;
    }
    assert(bv.take(bs.len() as int) =~= bv);
}

fn tool_name_map(msgs: &Vec<Message>) -> (r: Table<String>)
    ensures
        r@ == tool_name_map_spec(messages_view(msgs@)),
{
    let ghost mv = messages_view(msgs@);
    let mut t: Table<String> = Table::new();
    let mut i: usize = 0;
    while i < msgs.len()
        invariant
            i <= msgs.len(),
            mv == messages_view(msgs@),
            mv.len() == msgs.len(),
            t@ == tool_name_map_spec(mv.take(i as int)),
        decreases msgs.len() - i,
    {
        assert(mv.take(i + 1).drop_last() =~= mv.take(i as int));
        assert(mv.take(i + 1).last() == msgs@[i as int]@);
        add_names(&mut t, &msgs[i].content);
        i = i + 1;
    }
    assert(mv.take(msgs.len() as int) =~= mv);
    t
}

// ---- contents --------------------------------------------------------------------

/// The parts of a message: tool results as `functionResponse` parts named
/// through `names` (the id itself where it is unknown), other blocks as their
/// part.
pub open spec fn message_parts(c: Seq<BlockV>, names: Map<Seq<char>, Seq<char>>) -> Seq<JsonV>
    decreases c.len(),
{
    if c.len() == 0 {
        Seq::empty()
    } else {
        let rest = message_parts(c.drop_last(), names);
        match c.last() {
            BlockV::ToolResult { tool_use_id, content, is_error: _ } => rest.push(
                obj1(
                    "functionResponse"@,
                    obj1(
                        "name"@,
                        JsonV::Str(
                            if names.contains_key(tool_use_id) {
                                names[tool_use_id]
                            } else {
                                tool_use_id
                            },
                        ),
                    ).set("response"@, response_object_spec(content)),
                ),
            ),
            other => match block_to_part_spec(other) {
                Some(p) => rest.push(p),
                None => rest,
            },
        }
    }
}

pub open spec fn gemini_role(r: Role) -> Seq<char> {
    if r == Role::Assistant {
        "model"@
    } else {
        "user"@
    }
}

/// The contents of a history, as role and parts: messages without parts are
/// dropped, and a message with the role of the content before it joins that
/// content (Gemini wants user and model to alternate).
pub open spec fn contents_turns(msgs: Seq<MessageV>, names: Map<Seq<char>, Seq<char>>) -> Seq<
    (Seq<char>, Seq<JsonV>),
>
    decreases msgs.len(),
{
    if msgs.len() == 0 {
        Seq::empty()
    } else {
        let prev = contents_turns(msgs.drop_last(), names);
        let role = gemini_role(msgs.last().role);
        let parts = message_parts(msgs.last().content, names);
        if parts.len() == 0 {
            prev
        } else if prev.len() > 0 && prev.last().0 == role {
            prev.update(prev.len() - 1, (role, prev.last().1 + parts))
        } else {
            prev.push((role, parts))
        }
    }
}

pub open spec fn content_json(t: (Seq<char>, Seq<JsonV>)) -> JsonV {
    obj1("role"@, JsonV::Str(t.0)).set("parts"@, JsonV::Array(t.1))
}

fn push_json(out: &mut Vec<Json>, j: Json)
    ensures
        view_items(final(out)@) == view_items(old(out)@).push(j@),
{
    let ghost prev = out@;
    out.push(j);
    assert(out@.drop_last() == prev);
}

fn obj1_exec(k: &str, v: Json) -> (r: Json)
    ensures
        r@ == obj1(k@, v@),
        r@ is Object,
{
    Json::object().set(k, v)
}

fn message_parts_exec(c: &Vec<ContentBlock>, names: &Table<String>) -> (r: Vec<Json>)
    ensures
        view_items(r@) == message_parts(blocks_view(c@), names@),
{
    let ghost bv = blocks_view(c@);
    proof {
        lemma_blocks_view(c@);
    }
    let mut out: Vec<Json> = Vec::new();
    let mut i: usize = 0;
    while i < c.len()
        invariant
            i <= c.len(),
            bv == blocks_view(c@),
            bv.len() == c.len(),
            forall|k: int| 0 <= k < c.len() ==> #[trigger] bv[k] == c@[k]@,
            view_items(out@) == message_parts(bv.take(i as int), names@),
        decreases c.len() - i,
    {
        assert(bv.take(i + 1).drop_last() =~= bv.take(i as int));
        assert(bv.take(i + 1).last() == c@[i as int]@);
        match &c[i] {
            ContentBlock::ToolResult { tool_use_id, content, is_error: _ } => {
                let name = match names.get(tool_use_id.as_str()) {
                    Some(n) => n.clone(),
                    None => tool_use_id.clone(),
                };
                let part = obj1_exec(
                    "functionResponse",
                    obj1_exec("name", Json::Str(name)).set("response", response_object(content)),
                );
                push_json(&mut out, part);
            },
            other => match block_to_part(other) {
                Some(p) => push_json(&mut out, p),
                None => {},
            },
        }
        i = i + 1;
    }
    assert(bv.take(c.len() as int) =~= bv);
    out
}

fn build_contents(msgs: &Vec<Message>, names: &Table<String>) -> (r: Vec<Json>)
    ensures
        view_items(r@) == contents_turns(messages_view(msgs@), names@).map_values(
            |t: (Seq<char>, Seq<JsonV>)| content_json(t),
        ),
{
    let ghost mv = messages_view(msgs@);
    let mut turns: Vec<(&str, Vec<Json>)> = Vec::new();
    let mut i: usize = 0;
    while i < msgs.len()
        invariant
            i <= msgs.len(),
            mv == messages_view(msgs@),
            mv.len() == msgs.len(),
            turns@.map_values(|p: (&str, Vec<Json>)| (p.0@, view_items(p.1@))) == contents_turns(
                mv.take(i as int),
                names@,
            ),
        decreases msgs.len() - i,
    {
        let ghost pre = mv.take(i as int);
        assert(mv.take(i + 1).drop_last() =~= pre);
        assert(mv.take(i + 1).last() == msgs@[i as int]@);
        let role: &str = if msgs[i].role == Role::Assistant {
            "model"
        } else {
            "user"
        };
        let mut parts = message_parts_exec(&msgs[i].content, names);
        proof {
            lemma_view_items(parts@);
        }
        if parts.len() > 0 {
            let n = turns.len();
            if n > 0 && str_eq(turns[n - 1].0, role) {
                let (r0, mut last) = turns.pop().unwrap();
                let ghost lb = last@;
                let ghost pb = parts@;
                last.append(&mut parts);
                proof {
                    lemma_view_items_add(lb, pb);
                }
                turns.push((r0, last));
            } else {
                turns.push((role, parts));
            }
        }
        assert(turns@.map_values(|p: (&str, Vec<Json>)| (p.0@, view_items(p.1@))) =~= contents_turns(
            mv.take(i + 1),
            names@,
        ));
        i = i + 1;
    }
    assert(mv.take(msgs.len() as int) =~= mv);
    let ghost tv = turns@.map_values(|p: (&str, Vec<Json>)| (p.0@, view_items(p.1@)));
    let mut out: Vec<Json> = Vec::new();
    let mut k: usize = 0;
    while k < turns.len()
        invariant
            k <= turns.len(),
            tv == turns@.map_values(|p: (&str, Vec<Json>)| (p.0@, view_items(p.1@))),
            view_items(out@) == tv.take(k as int).map_values(
                |t: (Seq<char>, Seq<JsonV>)| content_json(t),
            ),
        decreases turns.len() - k,
    {
        let parts = clone_jsons(&turns[k].1);
        let j = obj1_exec("role", Json::str(turns[k].0)).set("parts", Json::array(parts));
        push_json(&mut out, j);
        assert(tv.take(k + 1).map_values(|t: (Seq<char>, Seq<JsonV>)| content_json(t)) =~= tv.take(
            k as int,
        ).map_values(|t: (Seq<char>, Seq<JsonV>)| content_json(t)).push(content_json(tv[k as int])));
        k = k + 1;
    }
    assert(tv.take(turns.len() as int) =~= tv);
    out
}

fn clone_jsons(v: &Vec<Json>) -> (r: Vec<Json>)
    ensures
        view_items(r@) == view_items(v@),
{
    let mut out: Vec<Json> = Vec::new();
    let mut i: usize = 0;
    while i < v.len()
        invariant
            i <= v.len(),
            view_items(out@) == view_items(v@.take(i as int)),
        decreases v.len() - i,
    {
        assert(v@.take(i + 1).drop_last() =~= v@.take(i as int));
        push_json(&mut out, v[i].clone());
        i = i + 1;
    }
    assert(v@.take(v.len() as int) =~= v@);
    out
}

// ---- request --------------------------------------------------------------------

pub open spec fn tool_to_gemini_spec(t: ToolDefV) -> JsonV {
    let o = obj1("name"@, JsonV::Str(t.name)).set("parameters"@, t.parameters);
    match t.description {
        Some(d) => o.set("description"@, JsonV::Str(d)),
        None => o,
    }
}

/// The function tools (built-ins left out), as declarations.
pub open spec fn decls_of(tools: Seq<ToolDefV>) -> Seq<JsonV>
    decreases tools.len(),
{
    if tools.len() == 0 {
        Seq::empty()
    } else {
        let rest = decls_of(tools.drop_last());
        if tools.last().builtin is None {
            rest.push(tool_to_gemini_spec(tools.last()))
        } else {
            rest
        }
    }
}

/// The names of the function tools.
pub open spec fn function_names_of(tools: Seq<ToolDefV>) -> Seq<Seq<char>>
    decreases tools.len(),
{
    if tools.len() == 0 {
        Seq::empty()
    } else {
        let rest = function_names_of(tools.drop_last());
        if tools.last().builtin is None {
            rest.push(tools.last().name)
        } else {
            rest
        }
    }
}

pub open spec fn tool_choice_to_gemini_spec(tc: ToolChoiceV) -> JsonV {
    let cfg = match tc {
        ToolChoiceV::Auto => obj1("mode"@, JsonV::Str("AUTO"@)),
        ToolChoiceV::NoTools => obj1("mode"@, JsonV::Str("NONE"@)),
        ToolChoiceV::Required => obj1("mode"@, JsonV::Str("ANY"@)),
        ToolChoiceV::Tool(n) => obj1("mode"@, JsonV::Str("ANY"@)).set(
            "allowedFunctionNames"@,
            JsonV::Array(seq![JsonV::Str(n)]),
        ),
    };
    obj1("functionCallingConfig"@, cfg)
}

/// A tool choice is sent only when it can apply: a named choice must name a
/// declared function.
pub open spec fn choice_applies(tc: ToolChoiceV, names: Seq<Seq<char>>) -> bool {
    match tc {
        ToolChoiceV::Tool(n) => names.contains(n),
        _ => true,
    }
}

pub open spec fn generation_config_spec(r: ChatRequestV) -> JsonV {
    let g0 = match r.max_tokens {
        Some(m) => obj1("maxOutputTokens"@, JsonV::UInt(m)),
        None => JsonV::empty_object(),
    };
    let g1 = set_opt(set_opt(g0, "temperature"@, r.temperature), "topP"@, r.top_p);
    let g2 = if r.stop.len() > 0 {
        g1.set("stopSequences"@, JsonV::Array(strings_json(r.stop)))
    } else {
        g1
    };
    let g3 = match r.response_format {
        Some(rf) => {
            let g = g2.set("responseMimeType"@, JsonV::Str("application/json"@));
            match rf {
                ResponseFormatV::JsonSchema { name: _, schema, strict: _ } => g.set(
                    "responseJsonSchema"@,
                    schema,
                ),
                ResponseFormatV::JsonObject => g,
            }
        },
        None => g2,
    };
    match r.reasoning {
        Some(c) => g3.set(
            "thinkingConfig"@,
            obj1("thinkingBudget"@, JsonV::UInt(c.spec_budget())),
        ),
        None => g3,
    }
}

/// The Gemini request body for an IR request.
pub open spec fn render_request_spec(r: ChatRequestV) -> JsonV {
    let o0 = if r.system.len() > 0 {
        obj1(
            "systemInstruction"@,
            obj1(
                "parts"@,
                JsonV::Array(seq![obj1("text"@, JsonV::Str(join_text_spec(r.system)))]),
            ),
        )
    } else {
        JsonV::empty_object()
    };
    let names = tool_name_map_spec(r.messages);
    let o1 = o0.set(
        "contents"@,
        JsonV::Array(
            contents_turns(r.messages, names).map_values(
                |t: (Seq<char>, Seq<JsonV>)| content_json(t),
            ),
        ),
    );
    let decls = decls_of(r.tools);
    let has_decls = decls.len() > 0;
    let o2 = if has_decls {
        o1.set(
            "tools"@,
            JsonV::Array(seq![obj1("functionDeclarations"@, JsonV::Array(decls))]),
        )
    } else {
        o1
    };
    let o3 = match r.tool_choice {
        Some(tc) => if has_decls && choice_applies(tc, function_names_of(r.tools)) {
            o2.set("toolConfig"@, tool_choice_to_gemini_spec(tc))
        } else {
            o2
        },
        None => o2,
    };
    let gen = generation_config_spec(r);
    if gen->Object_0.len() > 0 {
        o3.set("generationConfig"@, gen)
    } else {
        o3
    }
}

fn tool_to_gemini(t: &ToolDef) -> (r: Json)
    ensures
        r@ == tool_to_gemini_spec(t@),
{
    let o = obj1_exec("name", Json::Str(t.name.clone())).set("parameters", t.parameters.clone());
    match &t.description {
        Some(d) => o.set("description", Json::Str(d.clone())),
        None => o,
    }
}

fn declarations<'a>(tools: &'a Vec<ToolDef>) -> (r: (Vec<Json>, Vec<&'a str>))
    ensures
        view_items(r.0@) == decls_of(tools_view(tools@)),
        r.1@.map_values(|s: &str| s@) == function_names_of(tools_view(tools@)),
{
    let ghost tv = tools_view(tools@);
    let mut decls: Vec<Json> = Vec::new();
    let mut names: Vec<&str> = Vec::new();
    let mut i: usize = 0;
    while i < tools.len()
        invariant
            i <= tools.len(),
            tv == tools_view(tools@),
            tv.len() == tools.len(),
            view_items(decls@) == decls_of(tv.take(i as int)),
            names@.map_values(|s: &str| s@) == function_names_of(tv.take(i as int)),
        decreases tools.len() - i,
    {
        assert(tv.take(i + 1).drop_last() =~= tv.take(i as int));
        assert(tv.take(i + 1).last() == tools@[i as int]@);
        if tools[i].builtin.is_none() {
            push_json(&mut decls, tool_to_gemini(&tools[i]));
            let ghost before = names@;
            names.push(tools[i].name.as_str());
            assert(names@.map_values(|s: &str| s@) =~= before.map_values(|s: &str| s@).push(
                tools@[i as int].name@,
            ));
        }
        i = i + 1;
    }
    assert(tv.take(tools.len() as int) =~= tv);
    (decls, names)
}

fn tool_choice_to_gemini(tc: &ToolChoice) -> (r: Json)
    ensures
        r@ == tool_choice_to_gemini_spec(tc@),
{
    let cfg = match tc {
        ToolChoice::Auto => obj1_exec("mode", Json::str("AUTO")),
        ToolChoice::NoTools => obj1_exec("mode", Json::str("NONE")),
        ToolChoice::Required => obj1_exec("mode", Json::str("ANY")),
        ToolChoice::Tool(n) => {
            let v = vec![Json::Str(n.clone())];
            proof {
                lemma_view_items(v@);
            }
            assert(view_items(v@) =~= seq![JsonV::Str(n@)]);
            obj1_exec("mode", Json::str("ANY")).set("allowedFunctionNames", Json::array(v))
        },
    };
    obj1_exec("functionCallingConfig", cfg)
}

fn opt_number(o: &Option<Json>) -> (r: Option<Json>)
    ensures
        opt_json_view(r) == opt_json_view(*o),
{
    match o {
        Some(j) => Some(j.clone()),
        None => None,
    }
}

fn set_maybe(o: Json, key: &str, v: Option<Json>) -> (r: Json)
    requires
        o@ is Object,
    ensures
        r@ == set_opt(o@, key@, opt_json_view(v)),
        r@ is Object,
{
    match v {
        Some(x) => o.set(key, x),
        None => o,
    }
}

fn strings_to_json(s: &Vec<String>) -> (r: Vec<Json>)
    ensures
        view_items(r@) == strings_json(strings_view(s@)),
{
    let mut out: Vec<Json> = Vec::new();
    let mut i: usize = 0;
    while i < s.len()
        invariant
            i <= s.len(),
            view_items(out@) == strings_json(strings_view(s@.take(i as int))),
        decreases s.len() - i,
    {
        assert(s@.take(i + 1) =~= s@.take(i as int).push(s@[i as int]));
        assert(strings_view(s@.take(i + 1)) =~= strings_view(s@.take(i as int)).push(
            s@[i as int]@,
        ));
        assert(strings_json(strings_view(s@.take(i + 1))) =~= strings_json(
            strings_view(s@.take(i as int)),
        ).push(JsonV::Str(s@[i as int]@)));
        let c = s[i].clone();
        push_json(&mut out, Json::Str(c));
        i = i + 1;
    }
    assert(s@.take(s.len() as int) =~= s@);
    out
}

fn build_generation_config(req: &ChatRequest) -> (r: Json)
    ensures
        r@ == generation_config_spec(req@),
        r@ is Object,
{
    let g = match req.max_tokens {
        Some(m) => obj1_exec("maxOutputTokens", Json::uint(m)),
        None => Json::object(),
    };
    let g = set_maybe(g, "temperature", opt_number(&req.temperature));
    let g = set_maybe(g, "topP", opt_number(&req.top_p));
    let g = if req.stop.len() > 0 {
        g.set("stopSequences", Json::array(strings_to_json(&req.stop)))
    } else {
        g
    };
    let g = match &req.response_format {
        Some(rf) => {
            let g = g.set("responseMimeType", Json::str("application/json"));
            match rf {
                ResponseFormat::JsonSchema { name: _, schema, strict: _ } => g.set(
                    "responseJsonSchema",
                    schema.clone(),
                ),
                ResponseFormat::JsonObject => g,
            }
        },
        None => g,
    };
    match &req.reasoning {
        Some(c) => g.set("thinkingConfig", obj1_exec("thinkingBudget", Json::uint(c.derived_budget()))),
        None => g,
    }
}

/// Outbound: the IR request as a Gemini request body.
pub fn render_request(req: &ChatRequest) -> (r: Result<Json, GatewayError>)
    ensures
        r matches Ok(j) && j@ == render_request_spec(req@),
{
    let o = if req.system.len() > 0 {
        proof {
            lemma_blocks_view(req.system@);
            assert(req.system@.map_values(|b: ContentBlock| b@) =~= blocks_view(req.system@));
        }
        let text = join_text(req.system.as_slice());
        let v = vec![obj1_exec("text", Json::Str(text))];
        proof {
            lemma_view_items(v@);
        }
        assert(view_items(v@) =~= seq![v@[0]@]);
        obj1_exec("systemInstruction", obj1_exec("parts", Json::array(v)))
    } else {
        Json::object()
    };
    let names = tool_name_map(&req.messages);
    let o = o.set("contents", Json::array(build_contents(&req.messages, &names)));
    let (decls, fnames) = declarations(&req.tools);
    proof {
        lemma_view_items(decls@);
    }
    let has_decls = decls.len() > 0;
    let o = if has_decls {
        let v = vec![obj1_exec("functionDeclarations", Json::array(decls))];
        proof {
            lemma_view_items(v@);
        }
        assert(view_items(v@) =~= seq![v@[0]@]);
        o.set("tools", Json::array(v))
    } else {
        o
    };
    let o = match &req.tool_choice {
        Some(tc) => {
            let applies = tc.applies_to(fnames.as_slice());
            proof {
                if let ToolChoiceV::Tool(n) = tc@ {
                    if names_contain(fnames@, n) {
                        let w = choose|w: int| 0 <= w < fnames@.len() && (#[trigger] fnames@[w])@ == n;
                        assert(fnames@.map_values(|s: &str| s@)[w] == n);
                    }
                    if function_names_of(tools_view(req.tools@)).contains(n) {
                        let names_v = fnames@.map_values(|s: &str| s@);
                        let w = choose|w: int| 0 <= w < names_v.len() && names_v[w] == n;
                        assert((fnames@[w])@ == n);
                    }
                }
            }
            if has_decls && applies {
                o.set("toolConfig", tool_choice_to_gemini(tc))
            } else {
                o
            }
        },
        None => o,
    };
    let gen = build_generation_config(req);
    let nonempty = match &gen {
        Json::Object(e) => {
            proof {
                crate::json::lemma_view_entries(e@);
            }
            e.len() > 0
        },
        _ => false,
    };
    if nonempty {
        Ok(o.set("generationConfig", gen))
    } else {
        Ok(o)
    }
}

// ---- response ---------------------------------------------------------------------

pub open spec fn response_parts(c: Seq<BlockV>) -> Seq<JsonV>
    decreases c.len(),
{
    if c.len() == 0 {
        Seq::empty()
    } else {
        let rest = response_parts(c.drop_last());
        match block_to_part_spec(c.last()) {
            Some(p) => rest.push(p),
            None => rest,
        }
    }
}

/// The Gemini response body for an IR response; a surfaced provider error is
/// a Gemini error envelope instead.
pub open spec fn render_response_spec(r: ChatResponseV) -> JsonV {
    match r.stop_reason {
        Some(StopReasonV::Other(message)) => obj1(
            "error"@,
            obj1("code"@, JsonV::UInt(502)).set("message"@, JsonV::Str(message)).set(
                "status"@,
                JsonV::Str("UNKNOWN"@),
            ),
        ),
        _ => obj1(
            "candidates"@,
            JsonV::Array(
                seq![
                    obj1(
                        "content"@,
                        obj1("role"@, JsonV::Str("model"@)).set(
                            "parts"@,
                            JsonV::Array(response_parts(r.content)),
                        ),
                    ).set(
                        "finishReason"@,
                        JsonV::Str(
                            match r.stop_reason {
                                Some(s) => stop_to_gemini(s),
                                None => "STOP"@,
                            },
                        ),
                    ).set("index"@, JsonV::UInt(0)),
                ],
            ),
        ).set("usageMetadata"@, gemini_usage_spec(r.usage)),
    }
}

pub fn response_parts_exec(c: &Vec<ContentBlock>) -> (r: Vec<Json>)
    ensures
        view_items(r@) == response_parts(blocks_view(c@)),
{
    let ghost bv = blocks_view(c@);
    proof {
        lemma_blocks_view(c@);
    }
    let mut out: Vec<Json> = Vec::new();
    let mut i: usize = 0;
    while i < c.len()
        invariant
            i <= c.len(),
            bv == blocks_view(c@),
            bv.len() == c.len(),
            forall|k: int| 0 <= k < c.len() ==> #[trigger] bv[k] == c@[k]@,
            view_items(out@) == response_parts(bv.take(i as int)),
        decreases c.len() - i,
    {
        assert(bv.take(i + 1).drop_last() =~= bv.take(i as int));
        assert(bv.take(i + 1).last() == c@[i as int]@);
        match block_to_part(&c[i]) {
            Some(p) => push_json(&mut out, p),
            None => {},
        }
        i = i + 1;
    }
    assert(bv.take(c.len() as int) =~= bv);
    out
}

/// Inbound: the IR response as a Gemini response body.
pub fn render_response(resp: &ChatResponse, _ctx: &RequestCtx) -> (r: Result<Json, GatewayError>)
    ensures
        r matches Ok(j) && j@ == render_response_spec(resp@),
{
    if let Some(StopReason::Other(message)) = &resp.stop_reason {
        return Ok(
            obj1_exec(
                "error",
                obj1_exec("code", Json::uint(502)).set("message", Json::Str(message.clone())).set(
                    "status",
                    Json::str("UNKNOWN"),
                ),
            ),
        );
    }
    let parts = response_parts_exec(&resp.content);
    let finish = match &resp.stop_reason {
        Some(s) => s.to_gemini(),
        None => owned("STOP"),
    };
    let candidate = obj1_exec(
        "content",
        obj1_exec("role", Json::str("model")).set("parts", Json::array(parts)),
    ).set("finishReason", Json::Str(finish)).set("index", Json::uint(0));
    let v = vec![candidate];
    proof {
        lemma_view_items(v@);
    }
    assert(view_items(v@) =~= seq![v@[0]@]);
    Ok(obj1_exec("candidates", Json::array(v)).set("usageMetadata", gemini_usage(&resp.usage)))
}

} // verus!
