//! Rendering the IR as OpenAI Chat Completions request and response documents.
use vstd::prelude::*;
use crate::codec::anthropic::render::{set_opt, strings_json};
use crate::codec::common::{
    join_text, join_text_spec, source_to_data_url, source_to_data_url_spec, value_to_args,
    value_to_args_spec,
};
use crate::errors::GatewayError;
use crate::ir::{
    BlockV, ChatRequest, ChatRequestV, ChatResponse, ChatResponseV, ContentBlock, Message,
    MessageV, ResponseFormat, ResponseFormatV, Role, StopReason, StopReasonV, ToolChoice,
    ToolChoiceV, ToolDef, ToolDefV, Usage, blocks_view, lemma_blocks_view, messages_view,
    opt_json_view, stop_to_openai, strings_view, tools_view,
};
use crate::json::{Json, JsonV, lemma_view_items, view_items};
use crate::text::owned;

verus! {

broadcast use vstd::string::group_string_axioms;

pub open spec fn obj1(k: Seq<char>, v: JsonV) -> JsonV {
    JsonV::empty_object().set(k, v)
}

fn obj1_exec(k: &str, v: Json) -> (r: Json)
    ensures
        r@ == obj1(k@, v@),
        r@ is Object,
{
    Json::object().set(k, v)
}

fn push_json(out: &mut Vec<Json>, j: Json)
    ensures
        view_items(final(out)@) == view_items(old(out)@).push(j@),
{
    let ghost prev = out@;
    out.push(j);
    assert(out@.drop_last() == prev);
}

fn text_of(blocks: &Vec<ContentBlock>) -> (r: String)
    ensures
        r@ == join_text_spec(blocks_view(blocks@)),
{
    proof {
        lemma_blocks_view(blocks@);
        assert(blocks@.map_values(|b: ContentBlock| b@) =~= blocks_view(blocks@));
    }
    join_text(blocks.as_slice())
}

/// A string, or `null` when it is empty.
pub open spec fn text_or_null(t: Seq<char>) -> JsonV {
    if t.len() == 0 {
        JsonV::Null
    } else {
        JsonV::Str(t)
    }
}

// ---- messages -----------------------------------------------------------------------

/// The `role: "tool"` messages for the tool results of a message.
pub open spec fn tool_result_messages(c: Seq<BlockV>) -> Seq<JsonV>
    decreases c.len(),
{
    if c.len() == 0 {
        Seq::empty()
    } else {
        let rest = tool_result_messages(c.drop_last());
        match c.last() {
            BlockV::ToolResult { tool_use_id, content, is_error: _ } => rest.push(
                obj1("role"@, JsonV::Str("tool"@)).set("tool_call_id"@, JsonV::Str(tool_use_id)).set(
                    "content"@,
                    JsonV::Str(join_text_spec(content)),
                ),
            ),
            _ => rest,
        }
    }
}

pub open spec fn tool_call_json(id: Seq<char>, name: Seq<char>, input: JsonV) -> JsonV {
    obj1("id"@, JsonV::Str(id)).set("type"@, JsonV::Str("function"@)).set(
        "function"@,
        obj1("name"@, JsonV::Str(name)).set("arguments"@, JsonV::Str(value_to_args_spec(input))),
    )
}

/// The `tool_calls` entries for the tool uses of a message.
pub open spec fn tool_calls_json(c: Seq<BlockV>) -> Seq<JsonV>
    decreases c.len(),
{
    if c.len() == 0 {
        Seq::empty()
    } else {
        let rest = tool_calls_json(c.drop_last());
        match c.last() {
            BlockV::ToolUse { id, name, input } => rest.push(tool_call_json(id, name, input)),
            _ => rest,
        }
    }
}

pub open spec fn has_image(c: Seq<BlockV>) -> bool {
    exists|i: int| 0 <= i < c.len() && c[i] is Image
}

/// The text and image parts of a user message.
pub open spec fn user_parts(c: Seq<BlockV>) -> Seq<JsonV>
    decreases c.len(),
{
    if c.len() == 0 {
        Seq::empty()
    } else {
        let rest = user_parts(c.drop_last());
        match c.last() {
            BlockV::Text { text } => rest.push(
                obj1("type"@, JsonV::Str("text"@)).set("text"@, JsonV::Str(text)),
            ),
            BlockV::Image { source } => rest.push(
                obj1("type"@, JsonV::Str("image_url"@)).set(
                    "image_url"@,
                    obj1("url"@, JsonV::Str(source_to_data_url_spec(source))),
                ),
            ),
            _ => rest,
        }
    }
}

/// A user message's content: its text joined, or parts when it has an image.
pub open spec fn user_content(c: Seq<BlockV>) -> JsonV {
    if has_image(c) {
        JsonV::Array(user_parts(c))
    } else {
        JsonV::Str(join_text_spec(c))
    }
}

pub open spec fn is_empty_content(v: JsonV) -> bool {
    match v {
        JsonV::Str(s) => s.len() == 0,
        JsonV::Array(a) => a.len() == 0,
        _ => true,
    }
}

/// The chat messages one IR message becomes: its tool results first, as tool
/// messages; then the assistant's text and tool calls as one message, or the
/// user's content; an empty turn adds nothing.
pub open spec fn flatten_message_spec(m: MessageV) -> Seq<JsonV> {
    let results = tool_result_messages(m.content);
    if m.role == Role::Assistant {
        let text = join_text_spec(m.content);
        let calls = tool_calls_json(m.content);
        let msg = obj1("role"@, JsonV::Str("assistant"@)).set("content"@, text_or_null(text));
        let msg = if calls.len() > 0 {
            msg.set("tool_calls"@, JsonV::Array(calls))
        } else {
            msg
        };
        results + if text.len() > 0 || calls.len() > 0 {
            seq![msg]
        } else {
            Seq::empty()
        }
    } else {
        let content = user_content(m.content);
        results + if !is_empty_content(content) {
            seq![obj1("role"@, JsonV::Str("user"@)).set("content"@, content)]
        } else {
            Seq::empty()
        }
    }
}

pub open spec fn flatten_all(msgs: Seq<MessageV>) -> Seq<JsonV>
    decreases msgs.len(),
{
    if msgs.len() == 0 {
        Seq::empty()
    } else {
        flatten_all(msgs.drop_last()) + flatten_message_spec(msgs.last())
    }
}

/// Appends the items a filter over the blocks selects: tool-result messages
/// (`which == 0`), tool-call entries (`which == 1`) or user parts (else).
fn push_selected(c: &Vec<ContentBlock>, which: u8, out: &mut Vec<Json>)
    ensures
        view_items(final(out)@) == view_items(old(out)@) + (if which == 0 {
            tool_result_messages(blocks_view(c@))
        } else if which == 1 {
            tool_calls_json(blocks_view(c@))
        } else {
            user_parts(blocks_view(c@))
        }),
{
    let ghost bs = blocks_view(c@);
    let ghost start = view_items(out@);
    proof {
        lemma_blocks_view(c@);
    }
    let mut i: usize = 0;
    while i < c.len()
        invariant
            i <= c.len(),
            bs == blocks_view(c@),
            bs.len() == c.len(),
            forall|k: int| 0 <= k < c.len() ==> #[trigger] bs[k] == c@[k]@,
            view_items(out@) == start + (if which == 0 {
                tool_result_messages(bs.take(i as int))
            } else if which == 1 {
                tool_calls_json(bs.take(i as int))
            } else {
                user_parts(bs.take(i as int))
            }),
        decreases c.len() - i,
    {
        assert(bs.take(i + 1).drop_last() =~= bs.take(i as int));
        assert(bs.take(i + 1).last() == c@[i as int]@);
        match &c[i] {
            ContentBlock::ToolResult { tool_use_id, content, is_error: _ } => {
                if which == 0 {
                    let item = obj1_exec("role", Json::str("tool")).set(
                        "tool_call_id",
                        Json::Str(tool_use_id.clone()),
                    ).set("content", Json::Str(text_of(content)));
                    push_json(out, item);
                }
            },
            ContentBlock::ToolUse { id, name, input } => {
                if which == 1 {
                    let item = obj1_exec("id", Json::Str(id.clone())).set(
                        "type",
                        Json::str("function"),
                    ).set(
                        "function",
                        obj1_exec("name", Json::Str(name.clone())).set(
                            "arguments",
                            Json::Str(value_to_args(input)),
                        ),
                    );
                    push_json(out, item);
                }
            },
            ContentBlock::Text { text } => {
                if which != 0 && which != 1 {
                    let item = obj1_exec("type", Json::str("text")).set("text", Json::Str(text.clone()));
                    push_json(out, item);
                }
            },
            ContentBlock::Image { source } => {
                if which != 0 && which != 1 {
                    let item = obj1_exec("type", Json::str("image_url")).set(
                        "image_url",
                        obj1_exec("url", Json::Str(source_to_data_url(source))),
                    );
                    push_json(out, item);
                }
            },
            _ => {},
        }
        assert(view_items(out@) =~= start + (if which == 0 {
            tool_result_messages(bs.take(i + 1))
        } else if which == 1 {
            tool_calls_json(bs.take(i + 1))
        } else {
            user_parts(bs.take(i + 1))
        }));
        i = i + 1;
    }
    assert(bs.take(c.len() as int) =~= bs);
}

fn any_image(c: &Vec<ContentBlock>) -> (r: bool)
    ensures
        r == has_image(blocks_view(c@)),
{
    proof {
        lemma_blocks_view(c@);
    }
    let mut i: usize = 0;
    while i < c.len()
        invariant
            i <= c.len(),
            blocks_view(c@).len() == c.len(),
            forall|k: int| 0 <= k < c.len() ==> #[trigger] blocks_view(c@)[k] == c@[k]@,
            forall|k: int| 0 <= k < i ==> !(#[trigger] blocks_view(c@)[k] is Image),
        decreases c.len() - i,
    {
        if let ContentBlock::Image { .. } = &c[i] {
            assert(blocks_view(c@)[i as int] is Image);
            return true;
        }
        i = i + 1;
    }
    false
}

fn render_user_content(c: &Vec<ContentBlock>) -> (r: Json)
    ensures
        r@ == user_content(blocks_view(c@)),
{
    if !any_image(c) {
        return Json::Str(text_of(c));
    }
    let mut parts: Vec<Json> = Vec::new();
    proof {
        lemma_view_items(parts@);
    }
    assert(view_items(parts@) =~= Seq::<JsonV>::empty());
    push_selected(c, 2, &mut parts);
    assert(view_items(parts@) =~= user_parts(blocks_view(c@)));
    Json::array(parts)
}

fn flatten_message(msg: &Message, out: &mut Vec<Json>)
    ensures
        view_items(final(out)@) == view_items(old(out)@) + flatten_message_spec(msg@),
{
    let ghost start = view_items(out@);
    push_selected(&msg.content, 0, out);
    match msg.role {
        Role::Assistant => {
            let text = text_of(&msg.content);
            let mut calls: Vec<Json> = Vec::new();
            proof {
                lemma_view_items(calls@);
            }
            assert(view_items(calls@) =~= Seq::<JsonV>::empty());
            push_selected(&msg.content, 1, &mut calls);
            assert(view_items(calls@) =~= tool_calls_json(blocks_view(msg.content@)));
            proof {
                lemma_view_items(calls@);
            }
            let has_text = !text.as_str().is_empty();
            let has_calls = calls.len() > 0;
            let content = if has_text {
                Json::Str(text)
            } else {
                Json::Null
            };
            let m = obj1_exec("role", Json::str("assistant")).set("content", content);
            let m = if has_calls {
                m.set("tool_calls", Json::array(calls))
            } else {
                m
            };
            if has_text || has_calls {
                push_json(out, m);
            }
            assert(view_items(out@) =~= start + flatten_message_spec(msg@));
        },
        _ => {
            let content = render_user_content(&msg.content);
            let empty = match &content {
                Json::Str(s) => s.as_str().is_empty(),
                Json::Array(a) => {
                    proof {
                        lemma_view_items(a@);
                    }
                    a.len() == 0
                },
                _ => true,
            };
            if !empty {
                push_json(out, obj1_exec("role", Json::str("user")).set("content", content));
            }
            assert(view_items(out@) =~= start + flatten_message_spec(msg@));
        },
    }
}

// ---- request ---------------------------------------------------------------------

pub open spec fn tool_to_openai_spec(t: ToolDefV) -> JsonV {
    let f = obj1("name"@, JsonV::Str(t.name)).set("parameters"@, t.parameters);
    let f = match t.description {
        Some(d) => f.set("description"@, JsonV::Str(d)),
        None => f,
    };
    obj1("type"@, JsonV::Str("function"@)).set("function"@, f)
}

pub open spec fn openai_tools(tools: Seq<ToolDefV>) -> Seq<JsonV>
    decreases tools.len(),
{
    if tools.len() == 0 {
        Seq::empty()
    } else {
        let rest = openai_tools(tools.drop_last());
        if tools.last().builtin is None {
            rest.push(tool_to_openai_spec(tools.last()))
        } else {
            rest
        }
    }
}

pub open spec fn tool_choice_to_openai_spec(tc: ToolChoiceV) -> JsonV {
    match tc {
        ToolChoiceV::Auto => JsonV::Str("auto"@),
        ToolChoiceV::NoTools => JsonV::Str("none"@),
        ToolChoiceV::Required => JsonV::Str("required"@),
        ToolChoiceV::Tool(n) => obj1("type"@, JsonV::Str("function"@)).set(
            "function"@,
            obj1("name"@, JsonV::Str(n)),
        ),
    }
}

pub open spec fn response_format_to_openai_spec(rf: ResponseFormatV) -> JsonV {
    match rf {
        ResponseFormatV::JsonObject => obj1("type"@, JsonV::Str("json_object"@)),
        ResponseFormatV::JsonSchema { name, schema, strict } => obj1(
            "type"@,
            JsonV::Str("json_schema"@),
        ).set(
            "json_schema"@,
            obj1("name"@, JsonV::Str(name)).set("schema"@, schema).set(
                "strict"@,
                JsonV::Bool(strict),
            ),
        ),
    }
}

/// The OpenAI Chat Completions request body for an IR request: the system
/// text as a leading system message, built-in tools left out, and a
/// parallel-call flag only when a function tool remains.
pub open spec fn render_request_spec(r: ChatRequestV) -> JsonV {
    let system: Seq<JsonV> = if r.system.len() > 0 {
        seq![obj1("role"@, JsonV::Str("system"@)).set("content"@, JsonV::Str(join_text_spec(r.system)))]
    } else {
        Seq::empty()
    };
    let tools = openai_tools(r.tools);
    let has_tools = tools.len() > 0;
    let o0 = obj1("model"@, JsonV::Str(r.model)).set(
        "messages"@,
        JsonV::Array(system + flatten_all(r.messages)),
    );
    let o1 = if has_tools {
        o0.set("tools"@, JsonV::Array(tools))
    } else {
        o0
    };
    let o2 = match r.tool_choice {
        Some(tc) => o1.set("tool_choice"@, tool_choice_to_openai_spec(tc)),
        None => o1,
    };
    let o3 = match r.parallel_tool_calls {
        Some(p) => if has_tools {
            o2.set("parallel_tool_calls"@, JsonV::Bool(p))
        } else {
            o2
        },
        None => o2,
    };
    let o4 = match r.response_format {
        Some(rf) => o3.set("response_format"@, response_format_to_openai_spec(rf)),
        None => o3,
    };
    let o5 = match r.reasoning {
        Some(c) => o4.set("reasoning_effort"@, JsonV::Str(c.spec_effort().spec_name())),
        None => o4,
    };
    let o6 = match r.max_tokens {
        Some(m) => o5.set("max_tokens"@, JsonV::UInt(m)),
        None => o5,
    };
    let o7 = set_opt(set_opt(o6, "temperature"@, r.temperature), "top_p"@, r.top_p);
    let o8 = if r.stop.len() > 0 {
        o7.set("stop"@, JsonV::Array(strings_json(r.stop)))
    } else {
        o7
    };
    if r.stream {
        o8.set("stream"@, JsonV::Bool(true)).set(
            "stream_options"@,
            obj1("include_usage"@, JsonV::Bool(true)),
        )
    } else {
        o8
    }
}

fn tool_to_openai(t: &ToolDef) -> (r: Json)
    ensures
        r@ == tool_to_openai_spec(t@),
{
    let f = obj1_exec("name", Json::Str(t.name.clone())).set("parameters", t.parameters.clone());
    let f = match &t.description {
        Some(d) => f.set("description", Json::Str(d.clone())),
        None => f,
    };
    obj1_exec("type", Json::str("function")).set("function", f)
}

fn function_tools(tools: &Vec<ToolDef>) -> (r: Vec<Json>)
    ensures
        view_items(r@) == openai_tools(tools_view(tools@)),
{
    let ghost tv = tools_view(tools@);
    let mut out: Vec<Json> = Vec::new();
    let mut i: usize = 0;
    while i < tools.len()
        invariant
            i <= tools.len(),
            tv == tools_view(tools@),
            tv.len() == tools.len(),
            view_items(out@) == openai_tools(tv.take(i as int)),
        decreases tools.len() - i,
    {
        assert(tv.take(i + 1).drop_last() =~= tv.take(i as int));
        assert(tv.take(i + 1).last() == tools@[i as int]@);
        if tools[i].builtin.is_none() {
            push_json(&mut out, tool_to_openai(&tools[i]));
        }
        i = i + 1;
    }
    assert(tv.take(tools.len() as int) =~= tv);
    out
}

fn tool_choice_to_openai(tc: &ToolChoice) -> (r: Json)
    ensures
        r@ == tool_choice_to_openai_spec(tc@),
{
    match tc {
        ToolChoice::Auto => Json::str("auto"),
        ToolChoice::NoTools => Json::str("none"),
        ToolChoice::Required => Json::str("required"),
        ToolChoice::Tool(n) => obj1_exec("type", Json::str("function")).set(
            "function",
            obj1_exec("name", Json::Str(n.clone())),
        ),
    }
}

fn response_format_to_openai(rf: &ResponseFormat) -> (r: Json)
    ensures
        r@ == response_format_to_openai_spec(rf@),
{
    match rf {
        ResponseFormat::JsonObject => obj1_exec("type", Json::str("json_object")),
        ResponseFormat::JsonSchema { name, schema, strict } => obj1_exec(
            "type",
            Json::str("json_schema"),
        ).set(
            "json_schema",
            obj1_exec("name", Json::Str(name.clone())).set("schema", schema.clone()).set(
                "strict",
                Json::Bool(*strict),
            ),
        ),
    }
}

fn opt_number(o: &Option<Json>) -> (r: Option<Json>)
    ensures
        opt_json_view(r) == opt_json_view(*o),
{
    match o {
        Some(j) => Some(j.clone()),
        None => None,
    }
}

fn set_maybe(o: Json, key: &str, v: Option<Json>) -> (r: Json)
    requires
        o@ is Object,
    ensures
        r@ == set_opt(o@, key@, opt_json_view(v)),
        r@ is Object,
{
    match v {
        Some(x) => o.set(key, x),
        None => o,
    }
}

fn strings_to_json(s: &Vec<String>) -> (r: Vec<Json>)
    ensures
        view_items(r@) == strings_json(strings_view(s@)),
{
    let mut out: Vec<Json> = Vec::new();
    let mut i: usize = 0;
    while i < s.len()
        invariant
            i <= s.len(),
            view_items(out@) == strings_json(strings_view(s@.take(i as int))),
        decreases s.len() - i,
    {
        assert(s@.take(i + 1) =~= s@.take(i as int).push(s@[i as int]));
        assert(strings_view(s@.take(i + 1)) =~= strings_view(s@.take(i as int)).push(
            s@[i as int]@,
        ));
        assert(strings_json(strings_view(s@.take(i + 1))) =~= strings_json(
            strings_view(s@.take(i as int)),
        ).push(JsonV::Str(s@[i as int]@)));
        let c = s[i].clone();
        push_json(&mut out, Json::Str(c));
        i = i + 1;
    }
    assert(s@.take(s.len() as int) =~= s@);
    out
}

/// Outbound: the IR request as an OpenAI Chat Completions request body.
pub fn render_request(req: &ChatRequest) -> (r: Result<Json, GatewayError>)
    ensures
        r matches Ok(j) && j@ == render_request_spec(req@),
{
    let mut messages: Vec<Json> = Vec::new();
    proof {
        lemma_view_items(messages@);
    }
    if req.system.len() > 0 {
        proof {
            lemma_blocks_view(req.system@);
        }
        let m = obj1_exec("role", Json::str("system")).set("content", Json::Str(text_of(&req.system)));
        push_json(&mut messages, m);
    }
    let ghost head = view_items(messages@);
    let ghost mv = messages_view(req.messages@);
    let mut i: usize = 0;
    while i < req.messages.len()
        invariant
            i <= req.messages.len(),
            mv == messages_view(req.messages@),
            mv.len() == req.messages.len(),
            view_items(messages@) == head + flatten_all(mv.take(i as int)),
        decreases req.messages.len() - i,
    {
        assert(mv.take(i + 1).drop_last() =~= mv.take(i as int));
        assert(mv.take(i + 1).last() == req.messages@[i as int]@);
        flatten_message(&req.messages[i], &mut messages);
        assert(view_items(messages@) =~= head + flatten_all(mv.take(i + 1)));
        i = i + 1;
    }
    assert(mv.take(req.messages.len() as int) =~= mv);
    let o = obj1_exec("model", Json::Str(req.model.clone())).set("messages", Json::array(messages));
    let tools = function_tools(&req.tools);
    proof {
        lemma_view_items(tools@);
    }
    let has_tools = tools.len() > 0;
    let o = if has_tools {
        o.set("tools", Json::array(tools))
    } else {
        o
    };
    let o = match &req.tool_choice {
        Some(tc) => o.set("tool_choice", tool_choice_to_openai(tc)),
        None => o,
    };
    let o = match req.parallel_tool_calls {
        Some(p) => if has_tools {
            o.set("parallel_tool_calls", Json::Bool(p))
        } else {
            o
        },
        None => o,
    };
    let o = match &req.response_format {
        Some(rf) => o.set("response_format", response_format_to_openai(rf)),
        None => o,
    };
    let o = match &req.reasoning {
        Some(c) => o.set("reasoning_effort", Json::str(c.derived_effort().as_str())),
        None => o,
    };
    let o = match req.max_tokens {
        Some(m) => o.set("max_tokens", Json::uint(m)),
        None => o,
    };
    let o = set_maybe(o, "temperature", opt_number(&req.temperature));
    let o = set_maybe(o, "top_p", opt_number(&req.top_p));
    let o = if req.stop.len() > 0 {
        o.set("stop", Json::array(strings_to_json(&req.stop)))
    } else {
        o
    };
    let o = if req.stream {
        o.set("stream", Json::Bool(true)).set(
            "stream_options",
            obj1_exec("include_usage", Json::Bool(true)),
        )
    } else {
        o
    };
    Ok(o)
}

// ---- response ---------------------------------------------------------------------

/// The thinking texts of the blocks, concatenated.
pub open spec fn thinking_text(c: Seq<BlockV>) -> Seq<char>
    decreases c.len(),
{
    if c.len() == 0 {
        Seq::empty()
    } else {
        thinking_text(c.drop_last()) + match c.last() {
            BlockV::Thinking { text, signature: _ } => text,
            _ => Seq::empty(),
        }
    }
}

/// A Chat `usage` object; `prompt_tokens_details` only on a cache hit. The
/// total wraps as release builds' `+` does.
pub open spec fn openai_usage_spec(u: Usage) -> JsonV {
    let o = obj1("prompt_tokens"@, JsonV::UInt(u.input_tokens)).set(
        "completion_tokens"@,
        JsonV::UInt(u.output_tokens),
    ).set(
        "total_tokens"@,
        JsonV::UInt(vstd::wrapping::u64_specs::wrapping_add(u.input_tokens, u.output_tokens)),
    );
    if u.cache_read_input_tokens > 0 {
        o.set(
            "prompt_tokens_details"@,
            obj1("cached_tokens"@, JsonV::UInt(u.cache_read_input_tokens)),
        )
    } else {
        o
    }
}

pub fn openai_usage(u: &Usage) -> (r: Json)
    ensures
        r@ == openai_usage_spec(*u),
{
    let o = obj1_exec("prompt_tokens", Json::uint(u.input_tokens)).set(
        "completion_tokens",
        Json::uint(u.output_tokens),
    ).set("total_tokens", Json::uint(u.input_tokens.wrapping_add(u.output_tokens)));
    if u.cache_read_input_tokens > 0 {
        o.set("prompt_tokens_details", obj1_exec("cached_tokens", Json::uint(u.cache_read_input_tokens)))
    } else {
        o
    }
}

/// The response message: text (or `null`), reasoning when there is some, and
/// tool calls when there are some.
pub open spec fn response_message(c: Seq<BlockV>) -> JsonV {
    let m = obj1("role"@, JsonV::Str("assistant"@)).set("content"@, text_or_null(join_text_spec(c)));
    let reasoning = thinking_text(c);
    let m = if reasoning.len() > 0 {
        m.set("reasoning_content"@, JsonV::Str(reasoning))
    } else {
        m
    };
    let calls = tool_calls_json(c);
    if calls.len() > 0 {
        m.set("tool_calls"@, JsonV::Array(calls))
    } else {
        m
    }
}

/// The OpenAI Chat Completions response body for an IR response.
pub open spec fn render_response_spec(r: ChatResponseV, model: Seq<char>) -> JsonV {
    obj1("id"@, JsonV::Str(if r.id.len() == 0 { "chatcmpl-litellm"@ } else { r.id })).set(
        "object"@,
        JsonV::Str("chat.completion"@),
    ).set("created"@, JsonV::UInt(0)).set("model"@, JsonV::Str(model)).set(
        "choices"@,
        JsonV::Array(
            seq![
                obj1("index"@, JsonV::UInt(0)).set("message"@, response_message(r.content)).set(
                    "finish_reason"@,
                    JsonV::Str(
                        match r.stop_reason {
                            Some(s) => stop_to_openai(s),
                            None => "stop"@,
                        },
                    ),
                ),
            ],
        ),
    ).set("usage"@, openai_usage_spec(r.usage))
}

fn thinking_of(c: &Vec<ContentBlock>) -> (r: String)
    ensures
        r@ == thinking_text(blocks_view(c@)),
{
    let ghost bs = blocks_view(c@);
    proof {
        lemma_blocks_view(c@);
    }
    let mut text = String::new();
    let mut i: usize = 0;
    while i < c.len()
        invariant
            i <= c.len(),
            bs == blocks_view(c@),
            bs.len() == c.len(),
            forall|k: int| 0 <= k < c.len() ==> #[trigger] bs[k] == c@[k]@,
            text@ == thinking_text(bs.take(i as int)),
        decreases c.len() - i,
    {
        assert(bs.take(i + 1).drop_last() =~= bs.take(i as int));
        assert(bs.take(i + 1).last() == c@[i as int]@);
        match &c[i] {
            ContentBlock::Thinking { text: t, signature: _ } => text.append(t.as_str()),
            _ => {
                assert(text@ =~= text@ + Seq::<char>::empty());
            },
        }
        i = i + 1;
    }
    assert(bs.take(c.len() as int) =~= bs);
    text
}

/// Inbound: the IR response as an OpenAI Chat Completions response body.
pub fn render_response(resp: &ChatResponse, model: &str) -> (r: Result<Json, GatewayError>)
    ensures
        r matches Ok(j) && j@ == render_response_spec(resp@, model@),
{
    let text = text_of(&resp.content);
    let reasoning = thinking_of(&resp.content);
    let mut calls: Vec<Json> = Vec::new();
    proof {
        lemma_view_items(calls@);
    }
    assert(view_items(calls@) =~= Seq::<JsonV>::empty());
    push_selected(&resp.content, 1, &mut calls);
    assert(view_items(calls@) =~= tool_calls_json(blocks_view(resp.content@)));
    proof {
        lemma_view_items(calls@);
    }
    let content = if text.as_str().is_empty() {
        Json::Null
    } else {
        Json::Str(text)
    };
    let m = obj1_exec("role", Json::str("assistant")).set("content", content);
    let m = if !reasoning.as_str().is_empty() {
        m.set("reasoning_content", Json::Str(reasoning))
    } else {
        m
    };
    let m = if calls.len() > 0 {
        m.set("tool_calls", Json::array(calls))
    } else {
        m
    };
    let id = if resp.id.as_str().is_empty() {
        Json::str("chatcmpl-litellm")
    } else {
        Json::Str(resp.id.clone())
    };
    let finish = match &resp.stop_reason {
        Some(s) => s.to_openai(),
        None => owned("stop"),
    };
    let choice = obj1_exec("index", Json::uint(0)).set("message", m).set("finish_reason", Json::Str(finish));
    let v = vec![choice];
    proof {
        lemma_view_items(v@);
    }
    assert(view_items(v@) =~= seq![v@[0]@]);
    Ok(
        obj1_exec("id", id).set("object", Json::str("chat.completion")).set("created", Json::uint(0)).set(
            "model",
            Json::str(model),
        ).set("choices", Json::array(v)).set("usage", openai_usage(&resp.usage)),
    )
}

} // verus!
