//! OpenAI Responses request parsing into the IR, and the item readers the
//! response decoder shares.
use vstd::prelude::*;
use crate::codec::anthropic::blocks::opt_json;
use crate::codec::anthropic::parse::{number_of, request_result_view};
use crate::codec::common::{
    data_url_to_source, data_url_to_source_spec, names_view, opt_get, or_else, strip_known,
    without_keys,
};
use crate::errors::{GatewayError, GatewayErrorV};
use crate::ir::{
    BlockV, CacheMarkers, ChatRequest, ChatRequestV, ContentBlock, Effort, Message, MessageV,
    ReasoningConfig, ResponseFormat, ResponseFormatV, Role, ToolChoice, ToolChoiceV, ToolDef,
    ToolDefV, Usage, blocks_view, effort_named, lemma_blocks_view, messages_view, tools_view,
};
use crate::json::{
    Json, JsonV, lemma_view_items, parse_json, serde_parse, serde_text, str_or, to_json_text,
    view_entries, view_items,
};
use crate::text::{lower_seq, owned, str_eq, trim_seq};

verus! {

broadcast use vstd::string::group_string_axioms;

/// The top-level request members this codec reads; the rest travel in
/// `extra`.
pub open spec fn known_request_keys() -> Seq<Seq<char>> {
    seq![
        "model"@,
        "instructions"@,
        "input"@,
        "tools"@,
        "tool_choice"@,
        "parallel_tool_calls"@,
        "text"@,
        "reasoning"@,
        "max_output_tokens"@,
        "temperature"@,
        "top_p"@,
        "stream"@,
    ]
}

fn known_request_keys_exec() -> (r: Vec<&'static str>)
    ensures
        names_view(r@) == known_request_keys(),
{
    let r = vec![
        "model",
        "instructions",
        "input",
        "tools",
        "tool_choice",
        "parallel_tool_calls",
        "text",
        "reasoning",
        "max_output_tokens",
        "temperature",
        "top_p",
        "stream",
    ];
    assert(names_view(r@) =~= known_request_keys());
    r
}

/// `{"type": "object"}`.
pub open spec fn object_schema() -> JsonV {
    JsonV::empty_object().set("type"@, JsonV::Str("object"@))
}

fn object_schema_exec() -> (r: Json)
    ensures
        r@ == object_schema(),
{
    Json::object().set("type", Json::str("object"))
}

// ---- items -------------------------------------------------------------------

/// A `function_call` item as a tool use: the arguments string is parsed as
/// JSON where serde_json accepts it, and kept as a string where it does not.
pub open spec fn function_call_to_block_spec(item: JsonV) -> BlockV {
    let args = str_or(item.get_str("arguments"@), "{}"@);
    BlockV::ToolUse {
        id: match item.get("call_id"@) {
            Some(v) => str_or(v.as_str(), Seq::empty()),
            None => item.str_at("id"@),
        },
        name: item.str_at("name"@),
        input: match serde_parse(args) {
            Ok(doc) => doc,
            Err(_) => JsonV::Str(args),
        },
    }
}

pub fn function_call_to_block(item: &Json) -> (r: ContentBlock)
    ensures
        r@ == function_call_to_block_spec(item@),
{
    let args = item.str_or("arguments", "{}");
    let input = match parse_json(args.as_str()) {
        Ok(doc) => doc,
        Err(_) => Json::Str(args.clone()),
    };
    let id = match item.get("call_id") {
        Some(v) => match v.as_str() {
            Some(s) => s.clone(),
            None => String::new(),
        },
        None => item.str_at("id"),
    };
    ContentBlock::ToolUse { id, name: item.str_at("name"), input }
}

/// The text a `function_call_output` carries: a string as it is, any other
/// value as serde_json writes it.
pub open spec fn output_text_spec(o: Option<JsonV>) -> Seq<char> {
    match o {
        Some(JsonV::Str(s)) => s,
        Some(other) => serde_text(other),
        None => Seq::empty(),
    }
}

pub open spec fn role_of(r: Option<Seq<char>>) -> Role {
    if r == Some("assistant"@) {
        Role::Assistant
    } else if r == Some("system"@) || r == Some("developer"@) {
        Role::System
    } else {
        Role::User
    }
}

/// A message content part as a block: text parts, and `input_image` parts
/// whose `image_url` is a string or an object with a string `url`.
pub open spec fn content_part_spec(part: JsonV) -> Option<BlockV> {
    if !(part is Object) {
        None
    } else {
        let t = part.get_str("type"@);
        if t == Some("input_text"@) || t == Some("output_text"@) || t == Some("text"@) {
            match part.get_str("text"@) {
                Some(s) => Some(BlockV::Text { text: s }),
                None => None,
            }
        } else if t == Some("input_image"@) {
            match part.get("image_url"@) {
                Some(iu) => match (match iu.as_str() {
                    Some(u) => Some(u),
                    None => iu.get_str("url"@),
                }) {
                    Some(url) => Some(BlockV::Image { source: data_url_to_source_spec(url) }),
                    None => None,
                },
                None => None,
            }
        } else {
            None
        }
    }
}

pub open spec fn content_parts_spec(parts: Seq<JsonV>) -> Seq<BlockV>
    decreases parts.len(),
{
    if parts.len() == 0 {
        Seq::empty()
    } else {
        let rest = content_parts_spec(parts.drop_last());
        match content_part_spec(parts.last()) {
            Some(b) => rest.push(b),
            None => rest,
        }
    }
}

/// One input item as a message: a `function_call` is an assistant tool use,
/// a `function_call_output` a tool result, anything else a message with a role
/// and content. Items that are no object are skipped.
pub open spec fn input_item_spec(item: JsonV) -> Option<MessageV> {
    if !(item is Object) {
        None
    } else {
        let t = item.get_str("type"@);
        if t == Some("function_call"@) {
            Some(MessageV { role: Role::Assistant, content: seq![function_call_to_block_spec(item)] })
        } else if t == Some("function_call_output"@) {
            Some(
                MessageV {
                    role: Role::Tool,
                    content: seq![
                        BlockV::ToolResult {
                            tool_use_id: item.str_at("call_id"@),
                            content: seq![BlockV::Text { text: output_text_spec(item.get("output"@)) }],
                            is_error: false,
                        },
                    ],
                },
            )
        } else {
            Some(
                MessageV {
                    role: role_of(item.get_str("role"@)),
                    content: match item.get("content"@) {
                        Some(JsonV::Str(s)) => seq![BlockV::Text { text: s }],
                        Some(JsonV::Array(parts)) => content_parts_spec(parts),
                        _ => Seq::empty(),
                    },
                },
            )
        }
    }
}

pub open spec fn input_items_spec(items: Seq<JsonV>) -> Seq<MessageV>
    decreases items.len(),
{
    if items.len() == 0 {
        Seq::empty()
    } else {
        let rest = input_items_spec(items.drop_last());
        match input_item_spec(items.last()) {
            Some(m) => rest.push(m),
            None => rest,
        }
    }
}

fn text_block(text: String) -> (r: Vec<ContentBlock>)
    ensures
        blocks_view(r@) == seq![BlockV::Text { text: text@ }],
{
    let v = vec![ContentBlock::Text { text }];
    proof {
        lemma_blocks_view(v@);
        assert(blocks_view(v@) =~= seq![v@[0]@]);
    }
    v
}

fn one_block(b: ContentBlock) -> (r: Vec<ContentBlock>)
    ensures
        blocks_view(r@) == seq![b@],
{
    let v = vec![b];
    proof {
        lemma_blocks_view(v@);
        assert(blocks_view(v@) =~= seq![v@[0]@]);
    }
    v
}

fn content_part(part: &Json) -> (r: Option<ContentBlock>)
    ensures
        match r {
            Some(b) => content_part_spec(part@) == Some(b@),
            None => content_part_spec(part@) is None,
        },
{
    if !part.is_object() {
        return None;
    }
    let t = match part.get_str("type") {
        Some(t) => t.as_str(),
        None => "",
    };
    let has_t = part.get_str("type").is_some();
    if has_t && (str_eq(t, "input_text") || str_eq(t, "output_text") || str_eq(t, "text")) {
        match part.get_str("text") {
            Some(s) => Some(ContentBlock::Text { text: s.clone() }),
            None => None,
        }
    } else if has_t && str_eq(t, "input_image") {
        let iu = match part.get("image_url") {
            Some(iu) => iu,
            None => return None,
        };
        let url = match iu.as_str() {
            Some(u) => u,
            None => match iu.get_str("url") {
                Some(u) => u,
                None => return None,
            },
        };
        Some(ContentBlock::Image { source: data_url_to_source(url.as_str()) })
    } else {
        None
    }
}

fn content_parts(parts: &Vec<Json>) -> (r: Vec<ContentBlock>)
    ensures
        blocks_view(r@) == content_parts_spec(view_items(parts@)),
{
    let ghost items = view_items(parts@);
    proof {
        lemma_view_items(parts@);
    }
    let mut out: Vec<ContentBlock> = Vec::new();
    let mut i: usize = 0;
    while i < parts.len()
        invariant
            i <= parts.len(),
            items == view_items(parts@),
            items.len() == parts.len(),
            forall|k: int| 0 <= k < parts.len() ==> #[trigger] items[k] == parts@[k]@,
            blocks_view(out@) == content_parts_spec(items.take(i as int)),
        decreases parts.len() - i,
    {
        assert(items.take(i + 1).drop_last() =~= items.take(i as int));
        assert(items.take(i + 1).last() == parts@[i as int]@);
        match content_part(&parts[i]) {
            Some(b) => {
                let ghost prev = out@;
                out.push(b);
                proof {
                    lemma_blocks_view(prev);
                    lemma_blocks_view(out@);
                    assert(blocks_view(out@) =~= blocks_view(prev).push(b@));
                }
            },
            None => {},
        }
        i = i + 1;
    }
    assert(items.take(parts.len() as int) =~= items);
    out
}

fn output_text(o: Option<&Json>) -> (r: String)
    ensures
        r@ == output_text_spec(opt_json(o)),
{
    match o {
        Some(Json::Str(s)) => s.clone(),
        Some(other) => to_json_text(other),
        None => String::new(),
    }
}

fn input_item(item: &Json) -> (r: Option<Message>)
    ensures
        match r {
            Some(m) => input_item_spec(item@) == Some(m@),
            None => input_item_spec(item@) is None,
        },
{
    if !item.is_object() {
        return None;
    }
    let t = match item.get_str("type") {
        Some(t) => t.as_str(),
        None => "",
    };
    let has_t = item.get_str("type").is_some();
    if has_t && str_eq(t, "function_call") {
        Some(Message { role: Role::Assistant, content: one_block(function_call_to_block(item)) })
    } else if has_t && str_eq(t, "function_call_output") {
        let result = ContentBlock::ToolResult {
            tool_use_id: item.str_at("call_id"),
            content: text_block(output_text(item.get("output"))),
            is_error: false,
        };
        Some(Message { role: Role::Tool, content: one_block(result) })
    } else {
        let role = match item.get_str("role") {
            Some(r) => if str_eq(r.as_str(), "assistant") {
                Role::Assistant
            } else if str_eq(r.as_str(), "system") || str_eq(r.as_str(), "developer") {
                Role::System
            } else {
                Role::User
            },
            None => Role::User,
        };
        let content = match item.get("content") {
            Some(Json::Str(s)) => text_block(s.clone()),
            Some(Json::Array(parts)) => content_parts(parts),
            _ => Vec::new(),
        };
        Some(Message { role, content })
    }
}

fn parse_input_items(arr: &Vec<Json>) -> (r: Vec<Message>)
    ensures
        messages_view(r@) == input_items_spec(view_items(arr@)),
{
    let ghost items = view_items(arr@);
    proof {
        lemma_view_items(arr@);
    }
    let mut out: Vec<Message> = Vec::new();
    let mut i: usize = 0;
    while i < arr.len()
        invariant
            i <= arr.len(),
            items == view_items(arr@),
            items.len() == arr.len(),
            forall|k: int| 0 <= k < arr.len() ==> #[trigger] items[k] == arr@[k]@,
            messages_view(out@) == input_items_spec(items.take(i as int)),
        decreases arr.len() - i,
    {
        assert(items.take(i + 1).drop_last() =~= items.take(i as int));
        assert(items.take(i + 1).last() == arr@[i as int]@);
        match input_item(&arr[i]) {
            Some(m) => {
                let ghost prev = out@;
                out.push(m);
                assert(messages_view(out@) =~= messages_view(prev).push(m@));
            },
            None => {},
        }
        i = i + 1;
    }
    assert(items.take(arr.len() as int) =~= items);
    out
}

// ---- tools, formats, choices --------------------------------------------------

/// A tool entry: a built-in tool (any type but "function") is carried
/// verbatim; a function tool is read flat, or from the nested Chat shape,
/// and needs a string name.
pub open spec fn tool_from_responses_spec(v: JsonV) -> Option<ToolDefV> {
    if !(v is Object) {
        None
    } else {
        match v.get_str("type"@) {
            Some(t) => if t != "function"@ {
                Some(
                    ToolDefV {
                        name: str_or(v.get_str("name"@), t),
                        description: None,
                        parameters: object_schema(),
                        builtin: Some(v),
                    },
                )
            } else {
                function_tool_spec(v)
            },
            None => function_tool_spec(v),
        }
    }
}

pub open spec fn function_tool_spec(v: JsonV) -> Option<ToolDefV> {
    let f = v.get("function"@);
    match or_else(v.get("name"@), opt_get(f, "name"@)) {
        Some(JsonV::Str(name)) => Some(
            ToolDefV {
                name,
                description: match or_else(v.get("description"@), opt_get(f, "description"@)) {
                    Some(JsonV::Str(d)) => Some(d),
                    _ => None,
                },
                parameters: match or_else(v.get("parameters"@), opt_get(f, "parameters"@)) {
                    Some(p) => p,
                    None => object_schema(),
                },
                builtin: None,
            },
        ),
        _ => None,
    }
}

fn or_else_exec<'a>(a: Option<&'a Json>, b: Option<&'a Json>) -> (r: Option<&'a Json>)
    ensures
        opt_json(r) == or_else(opt_json(a), opt_json(b)),
{
    match a {
        Some(_) => a,
        None => b,
    }
}

fn nested<'a>(f: Option<&'a Json>, key: &str) -> (r: Option<&'a Json>)
    ensures
        opt_json(r) == opt_get(opt_json(f), key@),
{
    match f {
        Some(x) => x.get(key),
        None => None,
    }
}

fn function_tool(v: &Json) -> (r: Option<ToolDef>)
    ensures
        match r {
            Some(t) => function_tool_spec(v@) == Some(t@),
            None => function_tool_spec(v@) is None,
        },
{
    let f = v.get("function");
    let name = match or_else_exec(v.get("name"), nested(f, "name")) {
        Some(Json::Str(n)) => n.clone(),
        _ => return None,
    };
    let description = match or_else_exec(v.get("description"), nested(f, "description")) {
        Some(Json::Str(d)) => Some(d.clone()),
        _ => None,
    };
    let parameters = match or_else_exec(v.get("parameters"), nested(f, "parameters")) {
        Some(p) => p.clone(),
        None => object_schema_exec(),
    };
    Some(ToolDef { name, description, parameters, builtin: None })
}

pub fn tool_from_responses(v: &Json) -> (r: Option<ToolDef>)
    ensures
        match r {
            Some(t) => tool_from_responses_spec(v@) == Some(t@),
            None => tool_from_responses_spec(v@) is None,
        },
{
    if !v.is_object() {
        return None;
    }
    match v.get_str("type") {
        Some(t) => if !str_eq(t.as_str(), "function") {
            Some(
                ToolDef {
                    name: v.str_or("name", t.as_str()),
                    description: None,
                    parameters: object_schema_exec(),
                    builtin: Some(v.clone()),
                },
            )
        } else {
            function_tool(v)
        },
        None => function_tool(v),
    }
}

pub open spec fn tools_spec(a: Seq<JsonV>) -> Seq<ToolDefV>
    decreases a.len(),
{
    if a.len() == 0 {
        Seq::empty()
    } else {
        let rest = tools_spec(a.drop_last());
        match tool_from_responses_spec(a.last()) {
            Some(t) => rest.push(t),
            None => rest,
        }
    }
}

fn parse_tools(arr: &Vec<Json>) -> (r: Vec<ToolDef>)
    ensures
        tools_view(r@) == tools_spec(view_items(arr@)),
{
    let ghost items = view_items(arr@);
    proof {
        lemma_view_items(arr@);
    }
    let mut out: Vec<ToolDef> = Vec::new();
    let mut i: usize = 0;
    while i < arr.len()
        invariant
            i <= arr.len(),
            items == view_items(arr@),
            items.len() == arr.len(),
            forall|k: int| 0 <= k < arr.len() ==> #[trigger] items[k] == arr@[k]@,
            tools_view(out@) == tools_spec(items.take(i as int)),
        decreases arr.len() - i,
    {
        assert(items.take(i + 1).drop_last() =~= items.take(i as int));
        assert(items.take(i + 1).last() == arr@[i as int]@);
        match tool_from_responses(&arr[i]) {
            Some(t) => {
                let ghost prev = out@;
                out.push(t);
                assert(tools_view(out@) =~= tools_view(prev).push(t@));
            },
            None => {},
        }
        i = i + 1;
    }
    assert(items.take(arr.len() as int) =~= items);
    out
}

pub open spec fn response_format_spec(v: JsonV) -> Option<ResponseFormatV> {
    if !(v is Object) {
        None
    } else {
        let t = v.get_str("type"@);
        if t == Some("json_object"@) {
            Some(ResponseFormatV::JsonObject)
        } else if t == Some("json_schema"@) {
            Some(
                ResponseFormatV::JsonSchema {
                    name: str_or(v.get_str("name"@), "response"@),
                    schema: match v.get("schema"@) {
                        Some(s) => s,
                        None => object_schema(),
                    },
                    strict: match v.get_bool("strict"@) {
                        Some(b) => b,
                        None => true,
                    },
                },
            )
        } else {
            None
        }
    }
}

fn response_format_from_responses(v: &Json) -> (r: Option<ResponseFormat>)
    ensures
        match r {
            Some(f) => response_format_spec(v@) == Some(f@),
            None => response_format_spec(v@) is None,
        },
{
    if !v.is_object() {
        return None;
    }
    let t = match v.get_str("type") {
        Some(t) => t.as_str(),
        None => return None,
    };
    if str_eq(t, "json_object") {
        Some(ResponseFormat::JsonObject)
    } else if str_eq(t, "json_schema") {
        Some(
            ResponseFormat::JsonSchema {
                name: v.str_or("name", "response"),
                schema: match v.get("schema") {
                    Some(s) => s.clone(),
                    None => object_schema_exec(),
                },
                strict: match v.get_bool("strict") {
                    Some(b) => b,
                    None => true,
                },
            },
        )
    } else {
        None
    }
}

pub open spec fn tool_choice_spec(v: JsonV) -> Option<ToolChoiceV> {
    match v {
        JsonV::Str(s) => if s == "auto"@ {
            Some(ToolChoiceV::Auto)
        } else if s == "none"@ {
            Some(ToolChoiceV::NoTools)
        } else if s == "required"@ {
            Some(ToolChoiceV::Required)
        } else {
            None
        },
        JsonV::Object(_) => match v.get_str("name"@) {
            Some(n) => Some(ToolChoiceV::Tool(n)),
            None => None,
        },
        _ => None,
    }
}

fn parse_tool_choice(v: &Json) -> (r: Option<ToolChoice>)
    ensures
        match r {
            Some(c) => tool_choice_spec(v@) == Some(c@),
            None => tool_choice_spec(v@) is None,
        },
{
    match v {
        Json::Str(s) => if str_eq(s.as_str(), "auto") {
            Some(ToolChoice::Auto)
        } else if str_eq(s.as_str(), "none") {
            Some(ToolChoice::NoTools)
        } else if str_eq(s.as_str(), "required") {
            Some(ToolChoice::Required)
        } else {
            None
        },
        Json::Object(_) => match v.get_str("name") {
            Some(n) => Some(ToolChoice::Tool(n.clone())),
            None => None,
        },
        _ => None,
    }
}

pub open spec fn reasoning_spec(v: JsonV) -> Option<ReasoningConfig> {
    match v.get_str("effort"@) {
        Some(e) => match effort_named(lower_seq(trim_seq(e))) {
            Some(effort) => Some(ReasoningConfig { effort: Some(effort), budget_tokens: None }),
            None => None,
        },
        None => None,
    }
}

fn parse_reasoning(v: &Json) -> (r: Option<ReasoningConfig>)
    ensures
        r == reasoning_spec(v@),
{
    match v.get_str("effort") {
        Some(e) => match Effort::parse(e.as_str()) {
            Some(effort) => Some(ReasoningConfig { effort: Some(effort), budget_tokens: None }),
            None => None,
        },
        None => None,
    }
}

// ---- usage -------------------------------------------------------------------

/// Responses usage: `input_tokens` already includes the cached tokens.
pub open spec fn usage_from_responses_spec(v: Option<JsonV>) -> Usage {
    match v {
        Some(o) => if o is Object {
            Usage {
                input_tokens: match o.get_u64("input_tokens"@) {
                    Some(n) => n,
                    None => 0,
                },
                output_tokens: match o.get_u64("output_tokens"@) {
                    Some(n) => n,
                    None => 0,
                },
                cache_creation_input_tokens: 0,
                cache_read_input_tokens: match opt_get(o.get("input_tokens_details"@), "cached_tokens"@) {
                    Some(JsonV::UInt(n)) => n,
                    _ => 0,
                },
            }
        } else {
            Usage {
                input_tokens: 0,
                output_tokens: 0,
                cache_creation_input_tokens: 0,
                cache_read_input_tokens: 0,
            }
        },
        None => Usage {
            input_tokens: 0,
            output_tokens: 0,
            cache_creation_input_tokens: 0,
            cache_read_input_tokens: 0,
        },
    }
}

pub fn usage_from_responses(v: Option<&Json>) -> (r: Usage)
    ensures
        r == usage_from_responses_spec(opt_json(v)),
{
    let o = match v {
        Some(o) => o,
        None => return Usage::zero(),
    };
    if !o.is_object() {
        return Usage::zero();
    }
    let cached: u64 = match nested(o.get("input_tokens_details"), "cached_tokens") {
        Some(Json::UInt(n)) => *n,
        _ => 0,
    };
    Usage {
        input_tokens: match o.get_u64("input_tokens") {
            Some(n) => n,
            None => 0,
        },
        output_tokens: match o.get_u64("output_tokens") {
            Some(n) => n,
            None => 0,
        },
        cache_creation_input_tokens: 0,
        cache_read_input_tokens: cached,
    }
}

// ---- request -------------------------------------------------------------------

/// The IR request an OpenAI Responses request body spells.
pub open spec fn parse_request_spec(body: JsonV) -> Result<ChatRequestV, GatewayErrorV> {
    match body {
        JsonV::Object(entries) => Ok(
            ChatRequestV {
                model: body.str_at("model"@),
                system: match body.get_str("instructions"@) {
                    Some(s) => seq![BlockV::Text { text: s }],
                    None => Seq::empty(),
                },
                messages: match body.get("input"@) {
                    Some(JsonV::Str(s)) => seq![
                        MessageV { role: Role::User, content: seq![BlockV::Text { text: s }] },
                    ],
                    Some(JsonV::Array(a)) => input_items_spec(a),
                    _ => Seq::empty(),
                },
                tools: match body.get("tools"@) {
                    Some(JsonV::Array(a)) => tools_spec(a),
                    _ => Seq::empty(),
                },
                tool_choice: match body.get("tool_choice"@) {
                    Some(v) => tool_choice_spec(v),
                    None => None,
                },
                cache_tools: false,
                cache_system: false,
                cache_messages: Seq::empty(),
                parallel_tool_calls: body.get_bool("parallel_tool_calls"@),
                response_format: match opt_get(body.get("text"@), "format"@) {
                    Some(f) => response_format_spec(f),
                    None => None,
                },
                reasoning: match body.get("reasoning"@) {
                    Some(r) => reasoning_spec(r),
                    None => None,
                },
                max_tokens: body.get_u64("max_output_tokens"@),
                temperature: number_of(body.get("temperature"@)),
                top_p: number_of(body.get("top_p"@)),
                stop: Seq::empty(),
                stream: match body.get_bool("stream"@) {
                    Some(b) => b,
                    None => false,
                },
                extra: without_keys(entries, known_request_keys()),
            },
        ),
        _ => Err(GatewayErrorV::InvalidJsonMessage("request body must be a JSON object"@)),
    }
}

fn number_from(raw: Option<&Json>) -> (r: Option<Json>)
    ensures
        crate::ir::opt_json_view(r) == number_of(opt_json(raw)),
{
    match raw {
        Some(v) => if v.is_number() {
            Some(v.clone())
        } else {
            None
        },
        None => None,
    }
}

/// Inbound: an OpenAI Responses request body to the IR.
pub fn parse_request(body: Json) -> (r: Result<ChatRequest, GatewayError>)
    ensures
        request_result_view(r) == parse_request_spec(body@),
{
    let entries = match &body {
        Json::Object(e) => e,
        _ => {
            return Err(GatewayError::InvalidJsonMessage(owned("request body must be a JSON object")));
        },
    };
    let system = match body.get_str("instructions") {
        Some(s) => text_block(s.clone()),
        None => Vec::new(),
    };
    let messages = match body.get("input") {
        Some(Json::Str(s)) => {
            let v = vec![Message { role: Role::User, content: text_block(s.clone()) }];
            assert(messages_view(v@) =~= seq![v@[0]@]);
            v
        },
        Some(Json::Array(a)) => parse_input_items(a),
        _ => Vec::new(),
    };
    let tools = match body.get("tools") {
        Some(Json::Array(a)) => parse_tools(a),
        _ => Vec::new(),
    };
    let tool_choice = match body.get("tool_choice") {
        Some(v) => parse_tool_choice(v),
        None => None,
    };
    let response_format = match nested(body.get("text"), "format") {
        Some(f) => response_format_from_responses(f),
        None => None,
    };
    let reasoning = match body.get("reasoning") {
        Some(r) => parse_reasoning(r),
        None => None,
    };
    let known = known_request_keys_exec();
    let extra = strip_known(entries, known.as_slice());
    let req = ChatRequest {
        model: body.str_at("model"),
        system,
        messages,
        tools,
        tool_choice,
        cache: CacheMarkers::new(),
        parallel_tool_calls: body.get_bool("parallel_tool_calls"),
        response_format,
        reasoning,
        max_tokens: body.get_u64("max_output_tokens"),
        temperature: number_from(body.get("temperature")),
        top_p: number_from(body.get("top_p")),
        stop: Vec::new(),
        stream: match body.get_bool("stream") {
            Some(b) => b,
            None => false,
        },
        extra,
    };
    let ghost sp = parse_request_spec(body@)->Ok_0;
    assert(req@.model == sp.model);
    assert(req@.system == sp.system);
    assert(req@.messages == sp.messages);
    assert(req@.tools == sp.tools);
    assert(req@.tool_choice == sp.tool_choice);
    assert(req@.cache_messages == sp.cache_messages);
    assert(req@.response_format == sp.response_format);
    assert(req@.reasoning == sp.reasoning);
    assert(req@.temperature == sp.temperature);
    assert(req@.stop == sp.stop);
    assert(req@.extra == sp.extra);
    Ok(req)
}

} // verus!
