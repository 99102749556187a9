//! OpenAI Chat Completions request and response parsing into the IR.
use vstd::prelude::*;
use crate::codec::anthropic::blocks::opt_json;
use crate::codec::anthropic::parse::{
    number_of, request_result_view, response_result_view, strings_from, strings_of,
};
use crate::codec::common::{
    data_url_to_source, data_url_to_source_spec, names_view, opt_get, or_else, strip_known,
    without_keys,
};
use crate::codec::openai_responses::decode::summary_text;
use crate::errors::{GatewayError, GatewayErrorV};
use crate::ir::{
    BlockV, CacheMarkers, ChatRequest, ChatRequestV, ChatResponse, ChatResponseV, ContentBlock,
    Effort, Message, MessageV, ReasoningConfig, ResponseFormat, ResponseFormatV, Role, StopReason,
    ToolChoice, ToolChoiceV, ToolDef, ToolDefV, Usage, blocks_view, effort_named,
    lemma_blocks_view, messages_view, stop_from_openai, strings_view, tools_view,
};
use crate::json::{Json, JsonV, lemma_view_items, parse_json, serde_parse, str_or, view_items};
use crate::text::{lower_seq, owned, str_eq, trim_seq};

verus! {

broadcast use vstd::string::group_string_axioms;

/// The top-level request members this codec reads; the rest travel in
/// `extra`.
pub open spec fn known_request_keys() -> Seq<Seq<char>> {
    seq![
        "model"@,
        "messages"@,
        "tools"@,
        "tool_choice"@,
        "parallel_tool_calls"@,
        "response_format"@,
        "reasoning_effort"@,
        "max_tokens"@,
        "max_completion_tokens"@,
        "temperature"@,
        "top_p"@,
        "stop"@,
        "stream"@,
        "stream_options"@,
    ]
}

fn known_request_keys_exec() -> (r: Vec<&'static str>)
    ensures
        names_view(r@) == known_request_keys(),
{
    let r = vec![
        "model",
        "messages",
        "tools",
        "tool_choice",
        "parallel_tool_calls",
        "response_format",
        "reasoning_effort",
        "max_tokens",
        "max_completion_tokens",
        "temperature",
        "top_p",
        "stop",
        "stream",
        "stream_options",
    ];
    assert(names_view(r@) =~= known_request_keys());
    r
}

pub open spec fn object_schema() -> JsonV {
    JsonV::empty_object().set("type"@, JsonV::Str("object"@))
}

fn object_schema_exec() -> (r: Json)
    ensures
        r@ == object_schema(),
{
    Json::object().set("type", Json::str("object"))
}

fn push_block(out: &mut Vec<ContentBlock>, b: ContentBlock)
    ensures
        blocks_view(final(out)@) == blocks_view(old(out)@).push(b@),
{
    let ghost prev = out@;
    out.push(b);
    proof {
        lemma_blocks_view(prev);
        lemma_blocks_view(out@);
        assert(blocks_view(out@) =~= blocks_view(prev).push(b@));
    }
}

// ---- content --------------------------------------------------------------------

/// A message's content as text: a string as it is, the texts of an array's
/// parts concatenated; `None` for anything else.
pub open spec fn content_to_text_spec(v: Option<JsonV>) -> Option<Seq<char>> {
    match v {
        Some(JsonV::Str(s)) => Some(s),
        Some(JsonV::Array(a)) => Some(summary_text(a)),
        _ => None,
    }
}

pub fn content_to_text(v: Option<&Json>) -> (r: Option<String>)
    ensures
        match r {
            Some(t) => content_to_text_spec(opt_json(v)) == Some(t@),
            None => content_to_text_spec(opt_json(v)) is None,
        },
{
    match v {
        Some(Json::Str(s)) => Some(s.clone()),
        Some(Json::Array(a)) => {
            let ghost items = view_items(a@);
            proof {
                lemma_view_items(a@);
            }
            let mut text = String::new();
            let mut i: usize = 0;
            while i < a.len()
                invariant
                    i <= a.len(),
                    items == view_items(a@),
                    items.len() == a.len(),
                    forall|k: int| 0 <= k < a.len() ==> #[trigger] items[k] == a@[k]@,
                    text@ == summary_text(items.take(i as int)),
                decreases a.len() - i,
            {
                assert(items.take(i + 1).drop_last() =~= items.take(i as int));
                assert(items.take(i + 1).last() == a@[i as int]@);
                match a[i].get_str("text") {
                    Some(t) => text.append(t.as_str()),
                    None => {
                        assert(text@ =~= text@ + Seq::<char>::empty());
                    },
                }
                i = i + 1;
            }
            assert(items.take(a.len() as int) =~= items);
            Some(text)
        },
        _ => None,
    }
}

pub open spec fn part_to_block_spec(part: JsonV) -> Option<BlockV> {
    if !(part is Object) {
        None
    } else {
        let t = part.get_str("type"@);
        if t == Some("text"@) {
            match part.get_str("text"@) {
                Some(s) => Some(BlockV::Text { text: s }),
                None => None,
            }
        } else if t == Some("image_url"@) {
            match opt_get(part.get("image_url"@), "url"@) {
                Some(JsonV::Str(url)) => Some(BlockV::Image { source: data_url_to_source_spec(url) }),
                _ => None,
            }
        } else {
            None
        }
    }
}

pub open spec fn parts_spec(a: Seq<JsonV>) -> Seq<BlockV>
    decreases a.len(),
{
    if a.len() == 0 {
        Seq::empty()
    } else {
        let rest = parts_spec(a.drop_last());
        match part_to_block_spec(a.last()) {
            Some(b) => rest.push(b),
            None => rest,
        }
    }
}

fn part_to_block(part: &Json) -> (r: Option<ContentBlock>)
    ensures
        match r {
            Some(b) => part_to_block_spec(part@) == Some(b@),
            None => part_to_block_spec(part@) is None,
        },
{
    if !part.is_object() {
        return None;
    }
    let t = match part.get_str("type") {
        Some(t) => t.as_str(),
        None => return None,
    };
    if str_eq(t, "text") {
        match part.get_str("text") {
            Some(s) => Some(ContentBlock::Text { text: s.clone() }),
            None => None,
        }
    } else if str_eq(t, "image_url") {
        let url = match part.get("image_url") {
            Some(iu) => match iu.get("url") {
                Some(Json::Str(u)) => u,
                _ => return None,
            },
            None => return None,
        };
        Some(ContentBlock::Image { source: data_url_to_source(url.as_str()) })
    } else {
        None
    }
}

fn parts_to_blocks(a: &Vec<Json>) -> (r: Vec<ContentBlock>)
    ensures
        blocks_view(r@) == parts_spec(view_items(a@)),
{
    let ghost items = view_items(a@);
    proof {
        lemma_view_items(a@);
    }
    let mut out: Vec<ContentBlock> = Vec::new();
    let mut i: usize = 0;
    while i < a.len()
        invariant
            i <= a.len(),
            items == view_items(a@),
            items.len() == a.len(),
            forall|k: int| 0 <= k < a.len() ==> #[trigger] items[k] == a@[k]@,
            blocks_view(out@) == parts_spec(items.take(i as int)),
        decreases a.len() - i,
    {
        assert(items.take(i + 1).drop_last() =~= items.take(i as int));
        assert(items.take(i + 1).last() == a@[i as int]@);
        match part_to_block(&a[i]) {
            Some(b) => push_block(&mut out, b),
            None => {},
        }
        i = i + 1;
    }
    assert(items.take(a.len() as int) =~= items);
    out
}

/// A tool call as a tool use: the arguments string is parsed as JSON where
/// serde_json accepts it, kept as a string where it does not. No `function`,
/// no block.
pub open spec fn tool_call_to_block_spec(tc: JsonV) -> Option<BlockV> {
    match tc.get("function"@) {
        Some(func) => {
            let args = str_or(func.get_str("arguments"@), "{}"@);
            Some(
                BlockV::ToolUse {
                    id: tc.str_at("id"@),
                    name: func.str_at("name"@),
                    input: match serde_parse(args) {
                        Ok(doc) => doc,
                        Err(_) => JsonV::Str(args),
                    },
                },
            )
        },
        None => None,
    }
}

pub open spec fn tool_calls_spec(a: Seq<JsonV>) -> Seq<BlockV>
    decreases a.len(),
{
    if a.len() == 0 {
        Seq::empty()
    } else {
        let rest = tool_calls_spec(a.drop_last());
        match tool_call_to_block_spec(a.last()) {
            Some(b) => rest.push(b),
            None => rest,
        }
    }
}

pub fn tool_call_to_block(tc: &Json) -> (r: Option<ContentBlock>)
    ensures
        match r {
            Some(b) => tool_call_to_block_spec(tc@) == Some(b@),
            None => tool_call_to_block_spec(tc@) is None,
        },
{
    let func = match tc.get("function") {
        Some(f) => f,
        None => return None,
    };
    let args = func.str_or("arguments", "{}");
    let input = match parse_json(args.as_str()) {
        Ok(doc) => doc,
        Err(_) => Json::Str(args.clone()),
    };
    Some(ContentBlock::ToolUse { id: tc.str_at("id"), name: func.str_at("name"), input })
}

fn push_tool_calls(a: &Vec<Json>, out: &mut Vec<ContentBlock>)
    ensures
        blocks_view(final(out)@) == blocks_view(old(out)@) + tool_calls_spec(view_items(a@)),
{
    let ghost items = view_items(a@);
    let ghost start = blocks_view(out@);
    proof {
        lemma_view_items(a@);
    }
    let mut i: usize = 0;
    while i < a.len()
        invariant
            i <= a.len(),
            items == view_items(a@),
            items.len() == a.len(),
            forall|k: int| 0 <= k < a.len() ==> #[trigger] items[k] == a@[k]@,
            blocks_view(out@) == start + tool_calls_spec(items.take(i as int)),
        decreases a.len() - i,
    {
        assert(items.take(i + 1).drop_last() =~= items.take(i as int));
        assert(items.take(i + 1).last() == a@[i as int]@);
        match tool_call_to_block(&a[i]) {
            Some(b) => push_block(out, b),
            None => {},
        }
        assert(blocks_view(out@) =~= start + tool_calls_spec(items.take(i + 1)));
        i = i + 1;
    }
    assert(items.take(a.len() as int) =~= items);
}

// ---- messages --------------------------------------------------------------------

pub open spec fn user_spec(mo: JsonV) -> MessageV {
    MessageV {
        role: Role::User,
        content: match mo.get("content"@) {
            Some(JsonV::Str(s)) => seq![BlockV::Text { text: s }],
            Some(JsonV::Array(a)) => parts_spec(a),
            _ => Seq::empty(),
        },
    }
}

/// An assistant message: its text (if any), then its tool calls.
pub open spec fn assistant_spec(mo: JsonV) -> MessageV {
    let text: Seq<BlockV> = match mo.get_str("content"@) {
        Some(t) => if t.len() > 0 {
            seq![BlockV::Text { text: t }]
        } else {
            Seq::empty()
        },
        None => Seq::empty(),
    };
    MessageV {
        role: Role::Assistant,
        content: text + match mo.get_array("tool_calls"@) {
            Some(a) => tool_calls_spec(a),
            None => Seq::empty(),
        },
    }
}

pub open spec fn tool_message_spec(mo: JsonV) -> MessageV {
    MessageV {
        role: Role::Tool,
        content: seq![
            BlockV::ToolResult {
                tool_use_id: mo.str_at("tool_call_id"@),
                content: seq![
                    BlockV::Text {
                        text: match content_to_text_spec(mo.get("content"@)) {
                            Some(t) => t,
                            None => Seq::empty(),
                        },
                    },
                ],
                is_error: false,
            },
        ],
    }
}

fn parse_user(mo: &Json) -> (r: Message)
    ensures
        r@ == user_spec(mo@),
{
    let content = match mo.get("content") {
        Some(Json::Str(s)) => {
            let mut v: Vec<ContentBlock> = Vec::new();
            push_block(&mut v, ContentBlock::Text { text: s.clone() });
            proof {
                lemma_blocks_view(Seq::<ContentBlock>::empty());
            }
            assert(blocks_view(v@) =~= seq![BlockV::Text { text: s@ }]);
            v
        },
        Some(Json::Array(a)) => parts_to_blocks(a),
        _ => Vec::new(),
    };
    Message { role: Role::User, content }
}

fn parse_assistant(mo: &Json) -> (r: Message)
    ensures
        r@ == assistant_spec(mo@),
{
    let mut content: Vec<ContentBlock> = Vec::new();
    proof {
        lemma_blocks_view(content@);
    }
    if let Some(t) = mo.get_str("content") {
        if !t.as_str().is_empty() {
            push_block(&mut content, ContentBlock::Text { text: t.clone() });
        }
    }
    let ghost head = blocks_view(content@);
    match mo.get_array("tool_calls") {
        Some(a) => push_tool_calls(a, &mut content),
        None => {
            assert(blocks_view(content@) =~= head + Seq::<BlockV>::empty());
        },
    }
    let r = Message { role: Role::Assistant, content };
    assert(r@.content =~= assistant_spec(mo@).content);
    r
}

fn parse_tool_message(mo: &Json) -> (r: Message)
    ensures
        r@ == tool_message_spec(mo@),
{
    let text = match content_to_text(mo.get("content")) {
        Some(t) => t,
        None => String::new(),
    };
    let mut inner: Vec<ContentBlock> = Vec::new();
    push_block(&mut inner, ContentBlock::Text { text });
    proof {
        lemma_blocks_view(Seq::<ContentBlock>::empty());
    }
    let mut content: Vec<ContentBlock> = Vec::new();
    let ghost iv = blocks_view(inner@);
    push_block(
        &mut content,
        ContentBlock::ToolResult { tool_use_id: mo.str_at("tool_call_id"), content: inner, is_error: false },
    );
    let r = Message { role: Role::Tool, content };
    assert(r@.content =~= tool_message_spec(mo@).content);
    r
}

/// The chat messages split into the system text (system and developer
/// messages, hoisted) and the IR messages; entries that are no object are
/// skipped, and a message without a role is a user message.
pub open spec fn hoist_spec(a: Seq<JsonV>) -> (Seq<BlockV>, Seq<MessageV>)
    decreases a.len(),
{
    if a.len() == 0 {
        (Seq::empty(), Seq::empty())
    } else {
        let (sys, msgs) = hoist_spec(a.drop_last());
        let m = a.last();
        if !(m is Object) {
            (sys, msgs)
        } else {
            let role = str_or(m.get_str("role"@), "user"@);
            if role == "system"@ || role == "developer"@ {
                match content_to_text_spec(m.get("content"@)) {
                    Some(t) => (sys.push(BlockV::Text { text: t }), msgs),
                    None => (sys, msgs),
                }
            } else if role == "assistant"@ {
                (sys, msgs.push(assistant_spec(m)))
            } else if role == "tool"@ {
                (sys, msgs.push(tool_message_spec(m)))
            } else {
                (sys, msgs.push(user_spec(m)))
            }
        }
    }
}

fn hoist_messages(a: &Vec<Json>) -> (r: (Vec<ContentBlock>, Vec<Message>))
    ensures
        (blocks_view(r.0@), messages_view(r.1@)) == hoist_spec(view_items(a@)),
{
    let ghost items = view_items(a@);
    proof {
        lemma_view_items(a@);
        lemma_blocks_view(Seq::<ContentBlock>::empty());
    }
    let mut system: Vec<ContentBlock> = Vec::new();
    let mut messages: Vec<Message> = Vec::new();
    let mut i: usize = 0;
    while i < a.len()
        invariant
            i <= a.len(),
            items == view_items(a@),
            items.len() == a.len(),
            forall|k: int| 0 <= k < a.len() ==> #[trigger] items[k] == a@[k]@,
            (blocks_view(system@), messages_view(messages@)) == hoist_spec(items.take(i as int)),
        decreases a.len() - i,
    {
        assert(items.take(i + 1).drop_last() =~= items.take(i as int));
        assert(items.take(i + 1).last() == a@[i as int]@);
        let m = &a[i];
        if m.is_object() {
            let role: &str = match m.get_str("role") {
                Some(r) => r.as_str(),
                None => "user",
            };
            if str_eq(role, "system") || str_eq(role, "developer") {
                match content_to_text(m.get("content")) {
                    Some(t) => push_block(&mut system, ContentBlock::Text { text: t }),
                    None => {},
                }
            } else if str_eq(role, "assistant") {
                let msg = parse_assistant(m);
                let ghost prev = messages@;
                messages.push(msg);
                assert(messages_view(messages@) =~= messages_view(prev).push(msg@));
            } else if str_eq(role, "tool") {
                let msg = parse_tool_message(m);
                let ghost prev = messages@;
                messages.push(msg);
                assert(messages_view(messages@) =~= messages_view(prev).push(msg@));
            } else {
                let msg = parse_user(m);
                let ghost prev = messages@;
                messages.push(msg);
                assert(messages_view(messages@) =~= messages_view(prev).push(msg@));
            }
        }
        i = i + 1;
    }
    assert(items.take(a.len() as int) =~= items);
    (system, messages)
}

// ---- tools, formats, choices, usage -------------------------------------------------

/// A function tool; an entry without a `function` or a string name is no tool.
pub open spec fn tool_from_openai_spec(v: JsonV) -> Option<ToolDefV> {
    match v.get("function"@) {
        Some(func) => match func.get_str("name"@) {
            Some(name) => Some(
                ToolDefV {
                    name,
                    description: func.get_str("description"@),
                    parameters: match func.get("parameters"@) {
                        Some(p) => p,
                        None => object_schema(),
                    },
                    builtin: None,
                },
            ),
            None => None,
        },
        None => None,
    }
}

pub open spec fn tools_spec(a: Seq<JsonV>) -> Seq<ToolDefV>
    decreases a.len(),
{
    if a.len() == 0 {
        Seq::empty()
    } else {
        let rest = tools_spec(a.drop_last());
        match tool_from_openai_spec(a.last()) {
            Some(t) => rest.push(t),
            None => rest,
        }
    }
}

fn tool_from_openai(v: &Json) -> (r: Option<ToolDef>)
    ensures
        match r {
            Some(t) => tool_from_openai_spec(v@) == Some(t@),
            None => tool_from_openai_spec(v@) is None,
        },
{
    let func = match v.get("function") {
        Some(f) => f,
        None => return None,
    };
    let name = match func.get_str("name") {
        Some(n) => n.clone(),
        None => return None,
    };
    Some(
        ToolDef {
            name,
            description: func.opt_string("description"),
            parameters: match func.get("parameters") {
                Some(p) => p.clone(),
                None => object_schema_exec(),
            },
            builtin: None,
        },
    )
}

fn parse_tools(a: &Vec<Json>) -> (r: Vec<ToolDef>)
    ensures
        tools_view(r@) == tools_spec(view_items(a@)),
{
    let ghost items = view_items(a@);
    proof {
        lemma_view_items(a@);
    }
    let mut out: Vec<ToolDef> = Vec::new();
    let mut i: usize = 0;
    while i < a.len()
        invariant
            i <= a.len(),
            items == view_items(a@),
            items.len() == a.len(),
            forall|k: int| 0 <= k < a.len() ==> #[trigger] items[k] == a@[k]@,
            tools_view(out@) == tools_spec(items.take(i as int)),
        decreases a.len() - i,
    {
        assert(items.take(i + 1).drop_last() =~= items.take(i as int));
        assert(items.take(i + 1).last() == a@[i as int]@);
        match tool_from_openai(&a[i]) {
            Some(t) => {
                let ghost prev = out@;
                out.push(t);
                assert(tools_view(out@) =~= tools_view(prev).push(t@));
            },
            None => {},
        }
        i = i + 1;
    }
    assert(items.take(a.len() as int) =~= items);
    out
}

pub open spec fn response_format_spec(v: JsonV) -> Option<ResponseFormatV> {
    if !(v is Object) {
        None
    } else {
        let t = v.get_str("type"@);
        if t == Some("json_object"@) {
            Some(ResponseFormatV::JsonObject)
        } else if t == Some("json_schema"@) {
            match v.get("json_schema"@) {
                Some(js) => Some(
                    ResponseFormatV::JsonSchema {
                        name: str_or(js.get_str("name"@), "response"@),
                        schema: match js.get("schema"@) {
                            Some(s) => s,
                            None => object_schema(),
                        },
                        strict: match js.get_bool("strict"@) {
                            Some(b) => b,
                            None => true,
                        },
                    },
                ),
                None => None,
            }
        } else {
            None
        }
    }
}

fn response_format_from_openai(v: &Json) -> (r: Option<ResponseFormat>)
    ensures
        match r {
            Some(f) => response_format_spec(v@) == Some(f@),
            None => response_format_spec(v@) is None,
        },
{
    if !v.is_object() {
        return None;
    }
    let t = match v.get_str("type") {
        Some(t) => t.as_str(),
        None => return None,
    };
    if str_eq(t, "json_object") {
        Some(ResponseFormat::JsonObject)
    } else if str_eq(t, "json_schema") {
        let js = match v.get("json_schema") {
            Some(js) => js,
            None => return None,
        };
        Some(
            ResponseFormat::JsonSchema {
                name: js.str_or("name", "response"),
                schema: match js.get("schema") {
                    Some(s) => s.clone(),
                    None => object_schema_exec(),
                },
                strict: match js.get_bool("strict") {
                    Some(b) => b,
                    None => true,
                },
            },
        )
    } else {
        None
    }
}

pub open spec fn tool_choice_spec(v: JsonV) -> Option<ToolChoiceV> {
    match v {
        JsonV::Str(s) => if s == "auto"@ {
            Some(ToolChoiceV::Auto)
        } else if s == "none"@ {
            Some(ToolChoiceV::NoTools)
        } else if s == "required"@ {
            Some(ToolChoiceV::Required)
        } else {
            None
        },
        JsonV::Object(_) => match opt_get(v.get("function"@), "name"@) {
            Some(JsonV::Str(n)) => Some(ToolChoiceV::Tool(n)),
            _ => None,
        },
        _ => None,
    }
}

fn parse_tool_choice(v: &Json) -> (r: Option<ToolChoice>)
    ensures
        match r {
            Some(c) => tool_choice_spec(v@) == Some(c@),
            None => tool_choice_spec(v@) is None,
        },
{
    match v {
        Json::Str(s) => if str_eq(s.as_str(), "auto") {
            Some(ToolChoice::Auto)
        } else if str_eq(s.as_str(), "none") {
            Some(ToolChoice::NoTools)
        } else if str_eq(s.as_str(), "required") {
            Some(ToolChoice::Required)
        } else {
            None
        },
        Json::Object(_) => match v.get("function") {
            Some(f) => match f.get("name") {
                Some(Json::Str(n)) => Some(ToolChoice::Tool(n.clone())),
                _ => None,
            },
            None => None,
        },
        _ => None,
    }
}

/// OpenAI usage: `prompt_tokens` already includes the cached tokens.
pub open spec fn usage_from_openai_spec(v: Option<JsonV>) -> Usage {
    match v {
        Some(o) => if o is Object {
            Usage {
                input_tokens: match o.get_u64("prompt_tokens"@) {
                    Some(n) => n,
                    None => 0,
                },
                output_tokens: match o.get_u64("completion_tokens"@) {
                    Some(n) => n,
                    None => 0,
                },
                cache_creation_input_tokens: 0,
                cache_read_input_tokens: match opt_get(o.get("prompt_tokens_details"@), "cached_tokens"@) {
                    Some(JsonV::UInt(n)) => n,
                    _ => 0,
                },
            }
        } else {
            Usage {
                input_tokens: 0,
                output_tokens: 0,
                cache_creation_input_tokens: 0,
                cache_read_input_tokens: 0,
            }
        },
        None => Usage {
            input_tokens: 0,
            output_tokens: 0,
            cache_creation_input_tokens: 0,
            cache_read_input_tokens: 0,
        },
    }
}

pub fn usage_from_openai(v: Option<&Json>) -> (r: Usage)
    ensures
        r == usage_from_openai_spec(opt_json(v)),
{
    let o = match v {
        Some(o) => o,
        None => return Usage::zero(),
    };
    if !o.is_object() {
        return Usage::zero();
    }
    let cached: u64 = match o.get("prompt_tokens_details") {
        Some(d) => match d.get("cached_tokens") {
            Some(Json::UInt(n)) => *n,
            _ => 0,
        },
        None => 0,
    };
    Usage {
        input_tokens: match o.get_u64("prompt_tokens") {
            Some(n) => n,
            None => 0,
        },
        output_tokens: match o.get_u64("completion_tokens") {
            Some(n) => n,
            None => 0,
        },
        cache_creation_input_tokens: 0,
        cache_read_input_tokens: cached,
    }
}

pub open spec fn effort_spec(v: JsonV) -> Option<ReasoningConfig> {
    match v {
        JsonV::Str(s) => match effort_named(lower_seq(trim_seq(s))) {
            Some(e) => Some(ReasoningConfig { effort: Some(e), budget_tokens: None }),
            None => None,
        },
        _ => None,
    }
}

fn effort_to_reasoning(v: &Json) -> (r: Option<ReasoningConfig>)
    ensures
        r == effort_spec(v@),
{
    match v {
        Json::Str(s) => match Effort::parse(s.as_str()) {
            Some(e) => Some(ReasoningConfig { effort: Some(e), budget_tokens: None }),
            None => None,
        },
        _ => None,
    }
}

pub open spec fn stop_spec(v: Option<JsonV>) -> Seq<Seq<char>> {
    match v {
        Some(JsonV::Str(s)) => seq![s],
        Some(JsonV::Array(a)) => strings_of(a),
        _ => Seq::empty(),
    }
}

fn parse_stop(v: Option<&Json>) -> (r: Vec<String>)
    ensures
        strings_view(r@) == stop_spec(opt_json(v)),
{
    match v {
        Some(Json::Str(s)) => {
            let r = vec![s.clone()];
            assert(strings_view(r@) =~= seq![s@]);
            r
        },
        Some(Json::Array(a)) => strings_from(a),
        _ => Vec::new(),
    }
}

// ---- request ------------------------------------------------------------------------

/// The IR request an OpenAI Chat Completions request body spells.
pub open spec fn parse_request_spec(body: JsonV) -> Result<ChatRequestV, GatewayErrorV> {
    match body {
        JsonV::Object(entries) => {
            let (system, messages) = match body.get("messages"@) {
                Some(JsonV::Array(a)) => hoist_spec(a),
                _ => (Seq::empty(), Seq::empty()),
            };
            Ok(
                ChatRequestV {
                    model: body.str_at("model"@),
                    system,
                    messages,
                    tools: match body.get("tools"@) {
                        Some(JsonV::Array(a)) => tools_spec(a),
                        _ => Seq::empty(),
                    },
                    tool_choice: match body.get("tool_choice"@) {
                        Some(v) => tool_choice_spec(v),
                        None => None,
                    },
                    cache_tools: false,
                    cache_system: false,
                    cache_messages: Seq::empty(),
                    parallel_tool_calls: body.get_bool("parallel_tool_calls"@),
                    response_format: match body.get("response_format"@) {
                        Some(f) => response_format_spec(f),
                        None => None,
                    },
                    reasoning: match body.get("reasoning_effort"@) {
                        Some(r) => effort_spec(r),
                        None => None,
                    },
                    max_tokens: match body.get("max_tokens"@) {
                        Some(v) => v.as_u64(),
                        None => body.get_u64("max_completion_tokens"@),
                    },
                    temperature: number_of(body.get("temperature"@)),
                    top_p: number_of(body.get("top_p"@)),
                    stop: stop_spec(body.get("stop"@)),
                    stream: match body.get_bool("stream"@) {
                        Some(b) => b,
                        None => false,
                    },
                    extra: without_keys(entries, known_request_keys()),
                },
            )
        },
        _ => Err(GatewayErrorV::InvalidJsonMessage("request body must be a JSON object"@)),
    }
}

fn number_from(raw: Option<&Json>) -> (r: Option<Json>)
    ensures
        crate::ir::opt_json_view(r) == number_of(opt_json(raw)),
{
    match raw {
        Some(v) => if v.is_number() {
            Some(v.clone())
        } else {
            None
        },
        None => None,
    }
}

/// Inbound: an OpenAI Chat Completions request body to the IR.
pub fn parse_request(body: Json) -> (r: Result<ChatRequest, GatewayError>)
    ensures
        request_result_view(r) == parse_request_spec(body@),
{
    let entries = match &body {
        Json::Object(e) => e,
        _ => {
            return Err(GatewayError::InvalidJsonMessage(owned("request body must be a JSON object")));
        },
    };
    let (system, messages) = match body.get("messages") {
        Some(Json::Array(a)) => hoist_messages(a),
        _ => {
            proof {
                lemma_blocks_view(Seq::<ContentBlock>::empty());
            }
            (Vec::new(), Vec::new())
        },
    };
    let tools = match body.get("tools") {
        Some(Json::Array(a)) => parse_tools(a),
        _ => Vec::new(),
    };
    let tool_choice = match body.get("tool_choice") {
        Some(v) => parse_tool_choice(v),
        None => None,
    };
    let response_format = match body.get("response_format") {
        Some(f) => response_format_from_openai(f),
        None => None,
    };
    let reasoning = match body.get("reasoning_effort") {
        Some(r) => effort_to_reasoning(r),
        None => None,
    };
    let max_tokens = match body.get("max_tokens") {
        Some(v) => v.as_u64(),
        None => body.get_u64("max_completion_tokens"),
    };
    let known = known_request_keys_exec();
    let extra = strip_known(entries, known.as_slice());
    let req = ChatRequest {
        model: body.str_at("model"),
        system,
        messages,
        tools,
        tool_choice,
        cache: CacheMarkers::new(),
        parallel_tool_calls: body.get_bool("parallel_tool_calls"),
        response_format,
        reasoning,
        max_tokens,
        temperature: number_from(body.get("temperature")),
        top_p: number_from(body.get("top_p")),
        stop: parse_stop(body.get("stop")),
        stream: match body.get_bool("stream") {
            Some(b) => b,
            None => false,
        },
        extra,
    };
    let ghost sp = parse_request_spec(body@)->Ok_0;
    assert(req@.system == sp.system);
    assert(req@.messages == sp.messages);
    assert(req@.tools == sp.tools);
    assert(req@.tool_choice == sp.tool_choice);
    assert(req@.cache_messages == sp.cache_messages);
    assert(req@.response_format == sp.response_format);
    assert(req@.reasoning == sp.reasoning);
    assert(req@.temperature == sp.temperature);
    assert(req@.stop == sp.stop);
    assert(req@.extra == sp.extra);
    Ok(req)
}

// ---- response -------------------------------------------------------------------------

pub open spec fn first_choice(body: JsonV) -> Option<JsonV> {
    match body.get_array("choices"@) {
        Some(a) => if a.len() > 0 {
            Some(a[0])
        } else {
            None
        },
        None => None,
    }
}

/// The blocks of a response message: non-empty reasoning (some compatible
/// upstreams send `reasoning_content`), then non-empty text (or a refusal),
/// then tool calls.
pub open spec fn message_blocks(message: Option<JsonV>) -> Seq<BlockV> {
    let reasoning: Seq<BlockV> = match opt_get(message, "reasoning_content"@) {
        Some(JsonV::Str(r)) => if r.len() > 0 {
            seq![BlockV::Thinking { text: r, signature: None }]
        } else {
            Seq::empty()
        },
        _ => Seq::empty(),
    };
    let text: Seq<BlockV> = match or_else(opt_get(message, "content"@), opt_get(message, "refusal"@)) {
        Some(JsonV::Str(t)) => if t.len() > 0 {
            seq![BlockV::Text { text: t }]
        } else {
            Seq::empty()
        },
        _ => Seq::empty(),
    };
    reasoning + text + match opt_get(message, "tool_calls"@) {
        Some(JsonV::Array(a)) => tool_calls_spec(a),
        _ => Seq::empty(),
    }
}

/// The IR response an OpenAI Chat Completions response body spells.
pub open spec fn parse_response_spec(body: JsonV) -> Result<ChatResponseV, GatewayErrorV> {
    if body is Object {
        let choice = first_choice(body);
        Ok(
            ChatResponseV {
                id: body.str_at("id"@),
                model: body.str_at("model"@),
                content: message_blocks(opt_get(choice, "message"@)),
                stop_reason: match opt_get(choice, "finish_reason"@) {
                    Some(JsonV::Str(f)) => Some(stop_from_openai(f)),
                    _ => None,
                },
                usage: usage_from_openai_spec(body.get("usage"@)),
            },
        )
    } else {
        Err(GatewayErrorV::InvalidJsonMessage("response body must be a JSON object"@))
    }
}

fn member<'a>(parent: Option<&'a Json>, key: &str) -> (r: Option<&'a Json>)
    ensures
        opt_json(r) == opt_get(opt_json(parent), key@),
{
    match parent {
        Some(p) => p.get(key),
        None => None,
    }
}

/// Outbound: an OpenAI Chat Completions response body to the IR.
pub fn parse_response(body: Json) -> (r: Result<ChatResponse, GatewayError>)
    ensures
        response_result_view(r) == parse_response_spec(body@),
{
    if !body.is_object() {
        return Err(GatewayError::InvalidJsonMessage(owned("response body must be a JSON object")));
    }
    let choice = match body.get_array("choices") {
        Some(a) => {
            proof {
                lemma_view_items(a@);
            }
            if a.len() > 0 {
                Some(&a[0])
            } else {
                None
            }
        },
        None => None,
    };
    assert(opt_json(choice) == first_choice(body@));
    let message = member(choice, "message");
    let mut content: Vec<ContentBlock> = Vec::new();
    proof {
        lemma_blocks_view(content@);
    }
    if let Some(Json::Str(r)) = member(message, "reasoning_content") {
        if !r.as_str().is_empty() {
            push_block(&mut content, ContentBlock::Thinking { text: r.clone(), signature: None });
        }
    }
    let text = match member(message, "content") {
        Some(c) => Some(c),
        None => member(message, "refusal"),
    };
    if let Some(Json::Str(t)) = text {
        if !t.as_str().is_empty() {
            push_block(&mut content, ContentBlock::Text { text: t.clone() });
        }
    }
    let ghost head = blocks_view(content@);
    match member(message, "tool_calls") {
        Some(Json::Array(a)) => push_tool_calls(a, &mut content),
        _ => {
            assert(blocks_view(content@) =~= head + Seq::<BlockV>::empty());
        },
    }
    assert(blocks_view(content@) =~= message_blocks(opt_json(message)));
    let stop_reason = match member(choice, "finish_reason") {
        Some(Json::Str(f)) => Some(StopReason::from_openai(f.as_str())),
        _ => None,
    };
    Ok(
        ChatResponse {
            id: body.str_at("id"),
            model: body.str_at("model"),
            content,
            stop_reason,
            usage: usage_from_openai(body.get("usage")),
        },
    )
}

} // verus!
