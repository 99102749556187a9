//! Gemini request and response parsing into the IR.
use vstd::prelude::*;
use crate::codec::anthropic::blocks::opt_json;
use crate::codec::anthropic::parse::{
    number_of, request_result_view, response_result_view, strings_from, strings_of,
};
use crate::codec::common::or_else;
use crate::codec::gemini::common::{
    field, field_exec, parse_parts_as_text, parts_text, usage_from_gemini, usage_from_gemini_spec,
};
use crate::codec::gemini::parts::{object_schema, part_to_block, part_to_block_spec};
use crate::errors::{GatewayError, GatewayErrorV};
use crate::ir::{
    BlockV, CacheMarkers, ChatRequest, ChatRequestV, ChatResponse, ChatResponseV, ContentBlock,
    Message, MessageV, ReasoningConfig, ResponseFormat, ResponseFormatV, Role, StopReason,
    StopReasonV, ToolChoice, ToolChoiceV, ToolDef, ToolDefV, blocks_view, lemma_blocks_view,
    messages_view, stop_from_gemini, strings_view, tools_view,
};
use crate::json::{Json, JsonV, lemma_view_items, view_items};
use crate::text::{owned, str_eq, to_ascii_upper, upper_seq};

verus! {

broadcast use vstd::string::group_string_axioms;

// ---- contents -------------------------------------------------------------------

/// The blocks of a parts array; each part's position is its ordinal.
pub open spec fn parts_blocks(parts: Seq<JsonV>) -> Seq<BlockV>
    decreases parts.len(),
{
    if parts.len() == 0 {
        Seq::empty()
    } else {
        let rest = parts_blocks(parts.drop_last());
        match part_to_block_spec(parts.last(), (parts.len() - 1) as usize) {
            Some(b) => rest.push(b),
            None => rest,
        }
    }
}

pub fn parts_to_blocks(parts: &Vec<Json>) -> (r: Vec<ContentBlock>)
    ensures
        blocks_view(r@) == parts_blocks(view_items(parts@)),
{
    let ghost items = view_items(parts@);
    proof {
        lemma_view_items(parts@);
    }
    let mut out: Vec<ContentBlock> = Vec::new();
    let mut i: usize = 0;
    while i < parts.len()
        invariant
            i <= parts.len(),
            items == view_items(parts@),
            items.len() == parts.len(),
            forall|k: int| 0 <= k < parts.len() ==> #[trigger] items[k] == parts@[k]@,
            blocks_view(out@) == parts_blocks(items.take(i as int)),
        decreases parts.len() - i,
    {
        assert(items.take(i + 1).drop_last() =~= items.take(i as int));
        assert(items.take(i + 1).last() == parts@[i as int]@);
        match part_to_block(&parts[i], i) {
            Some(b) => {
                let ghost prev = out@;
                out.push(b);
                proof {
                    lemma_blocks_view(prev);
                    lemma_blocks_view(out@);
                    assert(blocks_view(out@) =~= blocks_view(prev).push(b@));
                }
            },
            None => {},
        }
        i = i + 1;
    }
    assert(items.take(parts.len() as int) =~= items);
    out
}

pub open spec fn content_to_message_spec(v: JsonV) -> Option<MessageV> {
    if v is Object {
        Some(
            MessageV {
                role: if v.get_str("role"@) == Some("model"@) {
                    Role::Assistant
                } else {
                    Role::User
                },
                content: match v.get_array("parts"@) {
                    Some(ps) => parts_blocks(ps),
                    None => Seq::empty(),
                },
            },
        )
    } else {
        None
    }
}

pub open spec fn contents_spec(a: Seq<JsonV>) -> Seq<MessageV>
    decreases a.len(),
{
    if a.len() == 0 {
        Seq::empty()
    } else {
        let rest = contents_spec(a.drop_last());
        match content_to_message_spec(a.last()) {
            Some(m) => rest.push(m),
            None => rest,
        }
    }
}

fn content_to_message(v: &Json) -> (r: Option<Message>)
    ensures
        match r {
            Some(m) => content_to_message_spec(v@) == Some(m@),
            None => content_to_message_spec(v@) is None,
        },
{
    if !v.is_object() {
        return None;
    }
    let role = match v.get_str("role") {
        Some(r) => if str_eq(r.as_str(), "model") {
            Role::Assistant
        } else {
            Role::User
        },
        None => Role::User,
    };
    let content = match v.get_array("parts") {
        Some(ps) => parts_to_blocks(ps),
        None => Vec::new(),
    };
    Some(Message { role, content })
}

fn parse_contents(a: &Vec<Json>) -> (r: Vec<Message>)
    ensures
        messages_view(r@) == contents_spec(view_items(a@)),
{
    let ghost items = view_items(a@);
    proof {
        lemma_view_items(a@);
    }
    let mut out: Vec<Message> = Vec::new();
    let mut i: usize = 0;
    while i < a.len()
        invariant
            i <= a.len(),
            items == view_items(a@),
            items.len() == a.len(),
            forall|k: int| 0 <= k < a.len() ==> #[trigger] items[k] == a@[k]@,
            messages_view(out@) == contents_spec(items.take(i as int)),
        decreases a.len() - i,
    {
        assert(items.take(i + 1).drop_last() =~= items.take(i as int));
        assert(items.take(i + 1).last() == a@[i as int]@);
        match content_to_message(&a[i]) {
            Some(m) => {
                let ghost prev = out@;
                out.push(m);
                assert(messages_view(out@) =~= messages_view(prev).push(m@));
            },
            None => {},
        }
        i = i + 1;
    }
    assert(items.take(a.len() as int) =~= items);
    out
}

// ---- tools -------------------------------------------------------------------------

/// The keys that mark a built-in (grounding) tool entry.
pub open spec fn builtin_tool_keys() -> Seq<Seq<char>> {
    seq![
        "google_search"@,
        "googleSearch"@,
        "code_execution"@,
        "codeExecution"@,
        "url_context"@,
        "urlContext"@,
        "google_search_retrieval"@,
        "googleSearchRetrieval"@,
    ]
}

fn builtin_tool_keys_exec() -> (r: Vec<&'static str>)
    ensures
        r@.map_values(|s: &str| s@) == builtin_tool_keys(),
{
    let r = vec![
        "google_search",
        "googleSearch",
        "code_execution",
        "codeExecution",
        "url_context",
        "urlContext",
        "google_search_retrieval",
        "googleSearchRetrieval",
    ];
    assert(r@.map_values(|s: &str| s@) =~= builtin_tool_keys());
    r
}

pub open spec fn decl_spec(d: JsonV) -> Option<ToolDefV> {
    match d.get_str("name"@) {
        Some(name) => Some(
            ToolDefV {
                name,
                description: d.get_str("description"@),
                parameters: match d.get("parameters"@) {
                    Some(p) => p,
                    None => object_schema(),
                },
                builtin: None,
            },
        ),
        None => None,
    }
}

pub open spec fn decls_spec(a: Seq<JsonV>) -> Seq<ToolDefV>
    decreases a.len(),
{
    if a.len() == 0 {
        Seq::empty()
    } else {
        let rest = decls_spec(a.drop_last());
        match decl_spec(a.last()) {
            Some(t) => rest.push(t),
            None => rest,
        }
    }
}

/// The built-in tools of an entry, one per marker key it holds, in key order.
pub open spec fn builtins_spec(entry: JsonV, keys: Seq<Seq<char>>) -> Seq<ToolDefV>
    decreases keys.len(),
{
    if keys.len() == 0 {
        Seq::empty()
    } else {
        let rest = builtins_spec(entry, keys.drop_last());
        if entry.get(keys.last()) is Some {
            rest.push(
                ToolDefV {
                    name: keys.last(),
                    description: None,
                    parameters: object_schema(),
                    builtin: Some(entry),
                },
            )
        } else {
            rest
        }
    }
}

/// The tools of one entry: its function declarations, then its built-ins.
pub open spec fn entry_tools(entry: JsonV) -> Seq<ToolDefV> {
    (match or_else(entry.get("functionDeclarations"@), entry.get("function_declarations"@)) {
        Some(JsonV::Array(ds)) => decls_spec(ds),
        _ => Seq::empty(),
    }) + builtins_spec(entry, builtin_tool_keys())
}

pub open spec fn tools_spec(a: Seq<JsonV>) -> Seq<ToolDefV>
    decreases a.len(),
{
    if a.len() == 0 {
        Seq::empty()
    } else {
        tools_spec(a.drop_last()) + entry_tools(a.last())
    }
}

fn push_tool(out: &mut Vec<ToolDef>, t: ToolDef)
    ensures
        tools_view(final(out)@) == tools_view(old(out)@).push(t@),
{
    let ghost prev = out@;
    out.push(t);
    assert(tools_view(out@) =~= tools_view(prev).push(t@));
}

fn object_schema_exec() -> (r: Json)
    ensures
        r@ == object_schema(),
{
    Json::object().set("type", Json::str("object"))
}

fn push_function_decls(entry: &Json, out: &mut Vec<ToolDef>)
    ensures
        tools_view(final(out)@) == tools_view(old(out)@) + match or_else(
            entry@.get("functionDeclarations"@),
            entry@.get("function_declarations"@),
        ) {
            Some(JsonV::Array(ds)) => decls_spec(ds),
            _ => Seq::empty(),
        },
{
    let ghost start = tools_view(out@);
    let decls = match field_exec(entry, "functionDeclarations", "function_declarations") {
        Some(Json::Array(ds)) => ds,
        _ => {
            assert(tools_view(out@) =~= start + Seq::<ToolDefV>::empty());
            return;
        },
    };
    let ghost items = view_items(decls@);
    proof {
        lemma_view_items(decls@);
    }
    let mut i: usize = 0;
    while i < decls.len()
        invariant
            i <= decls.len(),
            items == view_items(decls@),
            items.len() == decls.len(),
            forall|k: int| 0 <= k < decls.len() ==> #[trigger] items[k] == decls@[k]@,
            tools_view(out@) == start + decls_spec(items.take(i as int)),
        decreases decls.len() - i,
    {
        assert(items.take(i + 1).drop_last() =~= items.take(i as int));
        assert(items.take(i + 1).last() == decls@[i as int]@);
        let d = &decls[i];
        if let Some(name) = d.get_str("name") {
            let t = ToolDef {
                name: name.clone(),
                description: d.opt_string("description"),
                parameters: match d.get("parameters") {
                    Some(p) => p.clone(),
                    None => object_schema_exec(),
                },
                builtin: None,
            };
            push_tool(out, t);
        }
        assert(tools_view(out@) =~= start + decls_spec(items.take(i + 1)));
        i = i + 1;
    }
    assert(items.take(decls.len() as int) =~= items);
}

fn push_builtin_tools(entry: &Json, out: &mut Vec<ToolDef>)
    ensures
        tools_view(final(out)@) == tools_view(old(out)@) + builtins_spec(entry@, builtin_tool_keys()),
{
    let keys = builtin_tool_keys_exec();
    let ghost kv = builtin_tool_keys();
    let ghost start = tools_view(out@);
    let mut i: usize = 0;
    while i < keys.len()
        invariant
            i <= keys.len(),
            kv == keys@.map_values(|s: &str| s@),
            kv.len() == keys.len(),
            tools_view(out@) == start + builtins_spec(entry@, kv.take(i as int)),
        decreases keys.len() - i,
    {
        assert(kv.take(i + 1).drop_last() =~= kv.take(i as int));
        assert(kv.take(i + 1).last() == keys@[i as int]@);
        if entry.get(keys[i]).is_some() {
            let t = ToolDef {
                name: owned(keys[i]),
                description: None,
                parameters: object_schema_exec(),
                builtin: Some(entry.clone()),
            };
            push_tool(out, t);
        }
        assert(tools_view(out@) =~= start + builtins_spec(entry@, kv.take(i + 1)));
        i = i + 1;
    }
    assert(kv.take(keys.len() as int) =~= kv);
}

fn tools_from_gemini(a: &Vec<Json>) -> (r: Vec<ToolDef>)
    ensures
        tools_view(r@) == tools_spec(view_items(a@)),
{
    let ghost items = view_items(a@);
    proof {
        lemma_view_items(a@);
    }
    let mut out: Vec<ToolDef> = Vec::new();
    let mut i: usize = 0;
    while i < a.len()
        invariant
            i <= a.len(),
            items == view_items(a@),
            items.len() == a.len(),
            forall|k: int| 0 <= k < a.len() ==> #[trigger] items[k] == a@[k]@,
            tools_view(out@) == tools_spec(items.take(i as int)),
        decreases a.len() - i,
    {
        assert(items.take(i + 1).drop_last() =~= items.take(i as int));
        assert(items.take(i + 1).last() == a@[i as int]@);
        push_function_decls(&a[i], &mut out);
        push_builtin_tools(&a[i], &mut out);
        i = i + 1;
    }
    assert(items.take(a.len() as int) =~= items);
    out
}

// ---- generation config ---------------------------------------------------------------

/// A tool-calling mode (ASCII case ignored): AUTO, NONE, or ANY, which with
/// allowed function names forces the first of them.
pub open spec fn tool_choice_spec(cfg: JsonV) -> Option<ToolChoiceV> {
    match cfg.get_str("mode"@) {
        Some(mode) => {
            let m = upper_seq(mode);
            if m == "AUTO"@ {
                Some(ToolChoiceV::Auto)
            } else if m == "NONE"@ {
                Some(ToolChoiceV::NoTools)
            } else if m == "ANY"@ {
                match or_else(cfg.get("allowedFunctionNames"@), cfg.get("allowed_function_names"@)) {
                    Some(JsonV::Array(a)) => if a.len() > 0 {
                        match a[0] {
                            JsonV::Str(n) => Some(ToolChoiceV::Tool(n)),
                            _ => Some(ToolChoiceV::Required),
                        }
                    } else {
                        Some(ToolChoiceV::Required)
                    },
                    _ => Some(ToolChoiceV::Required),
                }
            } else {
                None
            }
        },
        None => None,
    }
}

fn parse_tool_choice(cfg: &Json) -> (r: Option<ToolChoice>)
    ensures
        match r {
            Some(c) => tool_choice_spec(cfg@) == Some(c@),
            None => tool_choice_spec(cfg@) is None,
        },
{
    let mode = match cfg.get_str("mode") {
        Some(m) => m,
        None => return None,
    };
    let m = to_ascii_upper(mode.as_str());
    if str_eq(m.as_str(), "AUTO") {
        Some(ToolChoice::Auto)
    } else if str_eq(m.as_str(), "NONE") {
        Some(ToolChoice::NoTools)
    } else if str_eq(m.as_str(), "ANY") {
        match field_exec(cfg, "allowedFunctionNames", "allowed_function_names") {
            Some(Json::Array(a)) => if a.len() > 0 {
                proof {
                    lemma_view_items(a@);
                }
                match &a[0] {
                    Json::Str(n) => Some(ToolChoice::Tool(n.clone())),
                    _ => Some(ToolChoice::Required),
                }
            } else {
                proof {
                    lemma_view_items(a@);
                }
                Some(ToolChoice::Required)
            },
            _ => Some(ToolChoice::Required),
        }
    } else {
        None
    }
}

pub open spec fn request_tool_choice_spec(body: JsonV) -> Option<ToolChoiceV> {
    match field(body, "toolConfig"@, "tool_config"@) {
        Some(tc) => if tc is Object {
            match field(tc, "functionCallingConfig"@, "function_calling_config"@) {
                Some(cfg) => tool_choice_spec(cfg),
                None => None,
            }
        } else {
            None
        },
        None => None,
    }
}

pub open spec fn response_format_spec(gen: JsonV) -> Option<ResponseFormatV> {
    let mime = match field(gen, "responseMimeType"@, "response_mime_type"@) {
        Some(m) => m.as_str(),
        None => None,
    };
    if mime != Some("application/json"@) {
        None
    } else {
        match or_else(
            field(gen, "responseJsonSchema"@, "response_json_schema"@),
            field(gen, "responseSchema"@, "response_schema"@),
        ) {
            Some(schema) => Some(
                ResponseFormatV::JsonSchema { name: "response"@, schema, strict: true },
            ),
            None => Some(ResponseFormatV::JsonObject),
        }
    }
}

fn parse_response_format(gen: &Json) -> (r: Option<ResponseFormat>)
    ensures
        match r {
            Some(f) => response_format_spec(gen@) == Some(f@),
            None => response_format_spec(gen@) is None,
        },
{
    let is_json = match field_exec(gen, "responseMimeType", "response_mime_type") {
        Some(Json::Str(m)) => str_eq(m.as_str(), "application/json"),
        _ => false,
    };
    if !is_json {
        return None;
    }
    let schema = match field_exec(gen, "responseJsonSchema", "response_json_schema") {
        Some(s) => Some(s),
        None => field_exec(gen, "responseSchema", "response_schema"),
    };
    match schema {
        Some(s) => Some(
            ResponseFormat::JsonSchema { name: owned("response"), schema: s.clone(), strict: true },
        ),
        None => Some(ResponseFormat::JsonObject),
    }
}

pub open spec fn reasoning_spec(gen: JsonV) -> Option<ReasoningConfig> {
    match field(gen, "thinkingConfig"@, "thinking_config"@) {
        Some(tc) => if tc is Object {
            match field(tc, "thinkingBudget"@, "thinking_budget"@) {
                Some(JsonV::UInt(b)) => Some(ReasoningConfig { effort: None, budget_tokens: Some(b) }),
                _ => None,
            }
        } else {
            None
        },
        None => None,
    }
}

fn parse_reasoning(gen: &Json) -> (r: Option<ReasoningConfig>)
    ensures
        r == reasoning_spec(gen@),
{
    let tc = match field_exec(gen, "thinkingConfig", "thinking_config") {
        Some(tc) => tc,
        None => return None,
    };
    if !tc.is_object() {
        return None;
    }
    match field_exec(tc, "thinkingBudget", "thinking_budget") {
        Some(Json::UInt(b)) => Some(ReasoningConfig { effort: None, budget_tokens: Some(*b) }),
        _ => None,
    }
}

pub open spec fn stop_list_spec(gen: JsonV) -> Seq<Seq<char>> {
    match field(gen, "stopSequences"@, "stop_sequences"@) {
        Some(JsonV::Array(a)) => strings_of(a),
        _ => Seq::empty(),
    }
}

// ---- request -------------------------------------------------------------------------

/// The IR request a Gemini request body spells. The model travels in the URL,
/// so the IR's is empty.
pub open spec fn parse_request_spec(body: JsonV) -> Result<ChatRequestV, GatewayErrorV> {
    if !(body is Object) {
        Err(GatewayErrorV::InvalidJsonMessage("request body must be a JSON object"@))
    } else {
        let gen = match field(body, "generationConfig"@, "generation_config"@) {
            Some(g) => if g is Object {
                Some(g)
            } else {
                None
            },
            None => None,
        };
        let system_text = match field(body, "systemInstruction"@, "system_instruction"@) {
            Some(s) => parts_text(s),
            None => Seq::empty(),
        };
        Ok(
            ChatRequestV {
                model: Seq::empty(),
                system: if system_text.len() > 0 {
                    seq![BlockV::Text { text: system_text }]
                } else {
                    Seq::empty()
                },
                messages: match body.get_array("contents"@) {
                    Some(a) => contents_spec(a),
                    None => Seq::empty(),
                },
                tools: match body.get_array("tools"@) {
                    Some(a) => tools_spec(a),
                    None => Seq::empty(),
                },
                tool_choice: request_tool_choice_spec(body),
                cache_tools: false,
                cache_system: false,
                cache_messages: Seq::empty(),
                parallel_tool_calls: None,
                response_format: match gen {
                    Some(g) => response_format_spec(g),
                    None => None,
                },
                reasoning: match gen {
                    Some(g) => reasoning_spec(g),
                    None => None,
                },
                max_tokens: match gen {
                    Some(g) => match field(g, "maxOutputTokens"@, "max_output_tokens"@) {
                        Some(JsonV::UInt(n)) => Some(n),
                        _ => None,
                    },
                    None => None,
                },
                temperature: match gen {
                    Some(g) => number_of(g.get("temperature"@)),
                    None => None,
                },
                top_p: match gen {
                    Some(g) => number_of(field(g, "topP"@, "top_p"@)),
                    None => None,
                },
                stop: match gen {
                    Some(g) => stop_list_spec(g),
                    None => Seq::empty(),
                },
                stream: false,
                extra: Seq::empty(),
            },
        )
    }
}

fn number_from(raw: Option<&Json>) -> (r: Option<Json>)
    ensures
        crate::ir::opt_json_view(r) == number_of(opt_json(raw)),
{
    match raw {
        Some(v) => if v.is_number() {
            Some(v.clone())
        } else {
            None
        },
        None => None,
    }
}

/// Inbound: a Gemini request body to the IR.
pub fn parse_request(body: Json) -> (r: Result<ChatRequest, GatewayError>)
    ensures
        request_result_view(r) == parse_request_spec(body@),
{
    if !body.is_object() {
        return Err(GatewayError::InvalidJsonMessage(owned("request body must be a JSON object")));
    }
    let system_text = match field_exec(&body, "systemInstruction", "system_instruction") {
        Some(s) => parse_parts_as_text(s),
        None => String::new(),
    };
    let system = if !system_text.as_str().is_empty() {
        let v = vec![ContentBlock::Text { text: system_text }];
        proof {
            lemma_blocks_view(v@);
            assert(blocks_view(v@) =~= seq![v@[0]@]);
        }
        v
    } else {
        Vec::new()
    };
    let messages = match body.get_array("contents") {
        Some(a) => parse_contents(a),
        None => Vec::new(),
    };
    let tools = match body.get_array("tools") {
        Some(a) => tools_from_gemini(a),
        None => Vec::new(),
    };
    let tool_choice = match field_exec(&body, "toolConfig", "tool_config") {
        Some(tc) => if tc.is_object() {
            match field_exec(tc, "functionCallingConfig", "function_calling_config") {
                Some(cfg) => parse_tool_choice(cfg),
                None => None,
            }
        } else {
            None
        },
        None => None,
    };
    let gen = match field_exec(&body, "generationConfig", "generation_config") {
        Some(g) => if g.is_object() {
            Some(g)
        } else {
            None
        },
        None => None,
    };
    let (response_format, reasoning, max_tokens, temperature, top_p, stop) = match gen {
        Some(g) => (
            parse_response_format(g),
            parse_reasoning(g),
            match field_exec(g, "maxOutputTokens", "max_output_tokens") {
                Some(Json::UInt(n)) => Some(*n),
                _ => None,
            },
            number_from(g.get("temperature")),
            number_from(field_exec(g, "topP", "top_p")),
            match field_exec(g, "stopSequences", "stop_sequences") {
                Some(Json::Array(a)) => strings_from(a),
                _ => Vec::new(),
            },
        ),
        None => (None, None, None, None, None, Vec::new()),
    };
    let req = ChatRequest {
        model: String::new(),
        system,
        messages,
        tools,
        tool_choice,
        cache: CacheMarkers::new(),
        parallel_tool_calls: None,
        response_format,
        reasoning,
        max_tokens,
        temperature,
        top_p,
        stop,
        stream: false,
        extra: Vec::new(),
    };
    let ghost sp = parse_request_spec(body@)->Ok_0;
    assert(req@.system == sp.system);
    assert(req@.stop == sp.stop);
    assert(req@.extra == sp.extra);
    assert(req@.cache_messages == sp.cache_messages);
    assert(req@.model == sp.model);
    assert(req@.messages == sp.messages);
    assert(req@.tools == sp.tools);
    assert(req@.tool_choice == sp.tool_choice);
    assert(req@.response_format == sp.response_format);
    assert(req@.reasoning == sp.reasoning);
    assert(req@.max_tokens == sp.max_tokens);
    assert(req@.temperature == sp.temperature);
    assert(req@.top_p == sp.top_p);
    Ok(req)
}

// ---- response -------------------------------------------------------------------------

pub open spec fn first_candidate(body: JsonV) -> Option<JsonV> {
    match body.get_array("candidates"@) {
        Some(a) => if a.len() > 0 {
            Some(a[0])
        } else {
            None
        },
        None => None,
    }
}

pub open spec fn candidate_parts(c: Option<JsonV>) -> Option<Seq<JsonV>> {
    match c {
        Some(c) => match c.get("content"@) {
            Some(content) => content.get_array("parts"@),
            None => None,
        },
        None => None,
    }
}

pub open spec fn any_tool_use(bs: Seq<BlockV>) -> bool {
    exists|i: int| 0 <= i < bs.len() && bs[i] is ToolUse
}

/// The IR response a Gemini response body spells: the first candidate's
/// parts, and a tool-use stop whenever a function call came back (Gemini says
/// STOP even then).
pub open spec fn parse_response_spec(body: JsonV) -> Result<ChatResponseV, GatewayErrorV> {
    if !(body is Object) {
        Err(GatewayErrorV::InvalidJsonMessage("response body must be a JSON object"@))
    } else {
        let c = first_candidate(body);
        let content = match candidate_parts(c) {
            Some(ps) => parts_blocks(ps),
            None => Seq::empty(),
        };
        let finish = match c {
            Some(cand) => if cand is Object {
                match field(cand, "finishReason"@, "finish_reason"@) {
                    Some(JsonV::Str(f)) => Some(f),
                    _ => None,
                }
            } else {
                None
            },
            None => None,
        };
        Ok(
            ChatResponseV {
                id: Seq::empty(),
                model: body.str_at("modelVersion"@),
                content,
                stop_reason: if any_tool_use(content) {
                    Some(StopReasonV::ToolUse)
                } else {
                    match finish {
                        Some(f) => Some(stop_from_gemini(f)),
                        None => None,
                    }
                },
                usage: usage_from_gemini_spec(field(body, "usageMetadata"@, "usage_metadata"@)),
            },
        )
    }
}

fn has_tool_use(bs: &Vec<ContentBlock>) -> (r: bool)
    ensures
        r == any_tool_use(blocks_view(bs@)),
{
    proof {
        lemma_blocks_view(bs@);
    }
    let mut i: usize = 0;
    while i < bs.len()
        invariant
            i <= bs.len(),
            blocks_view(bs@).len() == bs.len(),
            forall|k: int| 0 <= k < bs.len() ==> #[trigger] blocks_view(bs@)[k] == bs@[k]@,
            forall|k: int| 0 <= k < i ==> !(#[trigger] blocks_view(bs@)[k] is ToolUse),
        decreases bs.len() - i,
    {
        if let ContentBlock::ToolUse { .. } = &bs[i] {
            assert(blocks_view(bs@)[i as int] is ToolUse);
            return true;
        }
        i = i + 1;
    }
    false
}

/// Outbound: a Gemini response body to the IR.
pub fn parse_response(body: Json) -> (r: Result<ChatResponse, GatewayError>)
    ensures
        response_result_view(r) == parse_response_spec(body@),
{
    if !body.is_object() {
        return Err(GatewayError::InvalidJsonMessage(owned("response body must be a JSON object")));
    }
    let candidate = match body.get_array("candidates") {
        Some(a) => if a.len() > 0 {
            proof {
                lemma_view_items(a@);
            }
            Some(&a[0])
        } else {
            proof {
                lemma_view_items(a@);
            }
            None
        },
        None => None,
    };
    assert(opt_json(candidate) == first_candidate(body@));
    let parts = match candidate {
        Some(c) => match c.get("content") {
            Some(content) => content.get_array("parts"),
            None => None,
        },
        None => None,
    };
    let content = match parts {
        Some(ps) => parts_to_blocks(ps),
        None => Vec::new(),
    };
    let finish: Option<String> = match candidate {
        Some(c) => if c.is_object() {
            match field_exec(c, "finishReason", "finish_reason") {
                Some(Json::Str(f)) => Some(f.clone()),
                _ => None,
            }
        } else {
            None
        },
        None => None,
    };
    let stop_reason = if has_tool_use(&content) {
        Some(StopReason::ToolUse)
    } else {
        match finish {
            Some(f) => Some(StopReason::from_gemini(f.as_str())),
            None => None,
        }
    };
    Ok(
        ChatResponse {
            id: String::new(),
            model: body.str_at("modelVersion"),
            content,
            stop_reason,
            usage: usage_from_gemini(field_exec(&body, "usageMetadata", "usage_metadata")),
        },
    )
}

} // verus!
