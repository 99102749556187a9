//! Rendering the IR as OpenAI Responses request and response documents.
use vstd::prelude::*;
use crate::codec::anthropic::render::{function_tools_spec, set_opt};
use crate::codec::common::{
    join_text, join_text_spec, source_to_data_url, source_to_data_url_spec, value_to_args,
    value_to_args_spec,
};
use crate::errors::GatewayError;
use crate::ir::{
    BlockV, ChatRequest, ChatRequestV, ChatResponse, ChatResponseV, ContentBlock, Message,
    MessageV, ResponseFormat, ResponseFormatV, Role, StopReason, StopReasonV, ToolChoice,
    ToolChoiceV, ToolDef, ToolDefV, Usage, blocks_view, lemma_blocks_view, messages_view,
    tools_view,
};
use crate::json::{Json, JsonV, lemma_view_items, lemma_view_items_add, view_items};
use crate::text::concat;
use crate::wire::RequestCtx;

verus! {

broadcast use vstd::string::group_string_axioms;

pub open spec fn typed(t: Seq<char>) -> JsonV {
    JsonV::empty_object().set("type"@, JsonV::Str(t))
}

fn typed_exec(t: &str) -> (r: Json)
    ensures
        r@ == typed(t@),
        r@ is Object,
{
    Json::object().set("type", Json::str(t))
}

fn one(j: Json) -> (r: Vec<Json>)
    ensures
        view_items(r@) == seq![j@],
{
    let v = vec![j];
    proof {
        lemma_view_items(v@);
        assert(view_items(v@) =~= seq![j@]);
    }
    v
}

fn push_json(out: &mut Vec<Json>, j: Json)
    ensures
        view_items(final(out)@) == view_items(old(out)@).push(j@),
{
    let ghost prev = out@;
    out.push(j);
    assert(out@.drop_last() == prev);
}

/// `[{"type": kind, "text": text}]`, the one-part content of a message item.
pub open spec fn text_content(kind: Seq<char>, text: Seq<char>) -> JsonV {
    JsonV::Array(seq![typed(kind).set("text"@, JsonV::Str(text))])
}

fn text_content_exec(kind: &str, text: String) -> (r: Json)
    ensures
        r@ == text_content(kind@, text@),
{
    Json::array(one(typed_exec(kind).set("text", Json::Str(text))))
}

// ---- messages as input items ------------------------------------------------------

/// The `function_call_output` items for the tool results of a message.
pub open spec fn result_items(c: Seq<BlockV>) -> Seq<JsonV>
    decreases c.len(),
{
    if c.len() == 0 {
        Seq::empty()
    } else {
        let rest = result_items(c.drop_last());
        match c.last() {
            BlockV::ToolResult { tool_use_id, content, is_error: _ } => rest.push(
                typed("function_call_output"@).set("call_id"@, JsonV::Str(tool_use_id)).set(
                    "output"@,
                    JsonV::Str(join_text_spec(content)),
                ),
            ),
            _ => rest,
        }
    }
}

/// The `function_call` items for the tool uses of an assistant message.
pub open spec fn call_items(c: Seq<BlockV>) -> Seq<JsonV>
    decreases c.len(),
{
    if c.len() == 0 {
        Seq::empty()
    } else {
        let rest = call_items(c.drop_last());
        match c.last() {
            BlockV::ToolUse { id, name, input } => rest.push(
                typed("function_call"@).set("call_id"@, JsonV::Str(id)).set(
                    "name"@,
                    JsonV::Str(name),
                ).set("arguments"@, JsonV::Str(value_to_args_spec(input))),
            ),
            _ => rest,
        }
    }
}

/// The `input_text` and `input_image` parts of a user message.
pub open spec fn user_parts(c: Seq<BlockV>) -> Seq<JsonV>
    decreases c.len(),
{
    if c.len() == 0 {
        Seq::empty()
    } else {
        let rest = user_parts(c.drop_last());
        match c.last() {
            BlockV::Text { text } => rest.push(typed("input_text"@).set("text"@, JsonV::Str(text))),
            BlockV::Image { source } => rest.push(
                typed("input_image"@).set(
                    "image_url"@,
                    JsonV::Str(source_to_data_url_spec(source)),
                ),
            ),
            _ => rest,
        }
    }
}

/// The input items one IR message becomes: its tool results first, as
/// standalone items; then, for the assistant, its tool calls and its text as
/// one message; for any other role, its text and image parts as one user
/// message. A message with no text (or parts) adds no message item.
pub open spec fn flatten_message_spec(m: MessageV) -> Seq<JsonV> {
    let results = result_items(m.content);
    if m.role == Role::Assistant {
        let text = join_text_spec(m.content);
        results + call_items(m.content) + if text.len() > 0 {
            seq![
                JsonV::empty_object().set("role"@, JsonV::Str("assistant"@)).set(
                    "content"@,
                    text_content("output_text"@, text),
                ),
            ]
        } else {
            Seq::empty()
        }
    } else {
        let parts = user_parts(m.content);
        results + if parts.len() > 0 {
            seq![
                JsonV::empty_object().set("role"@, JsonV::Str("user"@)).set(
                    "content"@,
                    JsonV::Array(parts),
                ),
            ]
        } else {
            Seq::empty()
        }
    }
}

pub open spec fn flatten_all(msgs: Seq<MessageV>) -> Seq<JsonV>
    decreases msgs.len(),
{
    if msgs.len() == 0 {
        Seq::empty()
    } else {
        flatten_all(msgs.drop_last()) + flatten_message_spec(msgs.last())
    }
}

/// Appends to `out` the items a filter over the blocks of `c` selects: tool
/// results (`which == 0`), tool uses (`which == 1`) or user parts (else).
fn push_selected(c: &Vec<ContentBlock>, which: u8, out: &mut Vec<Json>)
    ensures
        view_items(final(out)@) == view_items(old(out)@) + (if which == 0 {
            result_items(blocks_view(c@))
        } else if which == 1 {
            call_items(blocks_view(c@))
        } else {
            user_parts(blocks_view(c@))
        }),
{
    let ghost bs = blocks_view(c@);
    let ghost start = view_items(out@);
    proof {
        lemma_blocks_view(c@);
    }
    let mut i: usize = 0;
    while i < c.len()
        invariant
            i <= c.len(),
            bs == blocks_view(c@),
            bs.len() == c.len(),
            forall|k: int| 0 <= k < c.len() ==> #[trigger] bs[k] == c@[k]@,
            view_items(out@) == start + (if which == 0 {
                result_items(bs.take(i as int))
            } else if which == 1 {
                call_items(bs.take(i as int))
            } else {
                user_parts(bs.take(i as int))
            }),
        decreases c.len() - i,
    {
        assert(bs.take(i + 1).drop_last() =~= bs.take(i as int));
        assert(bs.take(i + 1).last() == c@[i as int]@);
        let ghost before = view_items(out@);
        match &c[i] {
            ContentBlock::ToolResult { tool_use_id, content, is_error: _ } => {
                if which == 0 {
                    let item = typed_exec("function_call_output").set(
                        "call_id",
                        Json::Str(tool_use_id.clone()),
                    ).set("output", Json::Str(join_text(content.as_slice())));
                    proof {
                        assert(content@.map_values(|b: ContentBlock| b@) =~= blocks_view(content@))
                            by {
                            lemma_blocks_view(content@);
                        }
                    }
                    push_json(out, item);
                }
            },
            ContentBlock::ToolUse { id, name, input } => {
                if which == 1 {
                    let item = typed_exec("function_call").set("call_id", Json::Str(id.clone())).set(
                        "name",
                        Json::Str(name.clone()),
                    ).set("arguments", Json::Str(value_to_args(input)));
                    push_json(out, item);
                }
            },
            ContentBlock::Text { text } => {
                if which != 0 && which != 1 {
                    let item = typed_exec("input_text").set("text", Json::Str(text.clone()));
                    push_json(out, item);
                }
            },
            ContentBlock::Image { source } => {
                if which != 0 && which != 1 {
                    let item = typed_exec("input_image").set(
                        "image_url",
                        Json::Str(source_to_data_url(source)),
                    );
                    push_json(out, item);
                }
            },
            _ => {},
        }
        assert(view_items(out@) =~= start + (if which == 0 {
            result_items(bs.take(i + 1))
        } else if which == 1 {
            call_items(bs.take(i + 1))
        } else {
            user_parts(bs.take(i + 1))
        }));
        i = i + 1;
    }
    assert(bs.take(c.len() as int) =~= bs);
}

fn join_blocks_text(c: &Vec<ContentBlock>) -> (r: String)
    ensures
        r@ == join_text_spec(blocks_view(c@)),
{
    proof {
        lemma_blocks_view(c@);
        assert(c@.map_values(|b: ContentBlock| b@) =~= blocks_view(c@));
    }
    join_text(c.as_slice())
}

fn flatten_message(msg: &Message, out: &mut Vec<Json>)
    ensures
        view_items(final(out)@) == view_items(old(out)@) + flatten_message_spec(msg@),
{
    let ghost start = view_items(out@);
    push_selected(&msg.content, 0, out);
    let ghost r1 = view_items(out@);
    match msg.role {
        Role::Assistant => {
            push_selected(&msg.content, 1, out);
            let text = join_blocks_text(&msg.content);
            if !text.as_str().is_empty() {
                let item = Json::object().set("role", Json::str("assistant")).set(
                    "content",
                    text_content_exec("output_text", text),
                );
                push_json(out, item);
            }
            assert(view_items(out@) =~= start + flatten_message_spec(msg@));
        },
        _ => {
            let mut parts: Vec<Json> = Vec::new();
            push_selected(&msg.content, 2, &mut parts);
            proof {
                lemma_view_items(parts@);
                assert(view_items(Seq::<Json>::empty()) =~= Seq::<JsonV>::empty());
            }
            if parts.len() > 0 {
                let item = Json::object().set("role", Json::str("user")).set(
                    "content",
                    Json::array(parts),
                );
                push_json(out, item);
            }
            assert(view_items(out@) =~= start + flatten_message_spec(msg@));
        },
    }
}

// ---- request -------------------------------------------------------------------

pub open spec fn tool_to_responses_spec(t: ToolDefV) -> JsonV {
    let o = typed("function"@).set("name"@, JsonV::Str(t.name)).set("parameters"@, t.parameters);
    match t.description {
        Some(d) => o.set("description"@, JsonV::Str(d)),
        None => o,
    }
}

pub open spec fn responses_tools(tools: Seq<ToolDefV>) -> Seq<JsonV>
    decreases tools.len(),
{
    if tools.len() == 0 {
        Seq::empty()
    } else {
        let rest = responses_tools(tools.drop_last());
        if tools.last().builtin is None {
            rest.push(tool_to_responses_spec(tools.last()))
        } else {
            rest
        }
    }
}

pub open spec fn tool_choice_to_responses_spec(tc: ToolChoiceV) -> JsonV {
    match tc {
        ToolChoiceV::Auto => JsonV::Str("auto"@),
        ToolChoiceV::NoTools => JsonV::Str("none"@),
        ToolChoiceV::Required => JsonV::Str("required"@),
        ToolChoiceV::Tool(n) => typed("function"@).set("name"@, JsonV::Str(n)),
    }
}

pub open spec fn response_format_to_responses_spec(rf: ResponseFormatV) -> JsonV {
    match rf {
        ResponseFormatV::JsonObject => typed("json_object"@),
        ResponseFormatV::JsonSchema { name, schema, strict } => typed("json_schema"@).set(
            "name"@,
            JsonV::Str(name),
        ).set("schema"@, schema).set("strict"@, JsonV::Bool(strict)),
    }
}

/// The OpenAI Responses request body for an IR request. Built-in tools are
/// left out, and a tool choice or parallel-call flag is only sent when a
/// function tool remains.
pub open spec fn render_request_spec(r: ChatRequestV) -> JsonV {
    let tools = responses_tools(r.tools);
    let has_tools = tools.len() > 0;
    let o0 = JsonV::empty_object().set("model"@, JsonV::Str(r.model));
    let o1 = if r.system.len() > 0 {
        o0.set("instructions"@, JsonV::Str(join_text_spec(r.system)))
    } else {
        o0
    };
    let o2 = o1.set("input"@, JsonV::Array(flatten_all(r.messages)));
    let o3 = if has_tools {
        o2.set("tools"@, JsonV::Array(tools))
    } else {
        o2
    };
    let o4 = match r.tool_choice {
        Some(tc) => if has_tools {
            o3.set("tool_choice"@, tool_choice_to_responses_spec(tc))
        } else {
            o3
        },
        None => o3,
    };
    let o5 = match r.parallel_tool_calls {
        Some(p) => if has_tools {
            o4.set("parallel_tool_calls"@, JsonV::Bool(p))
        } else {
            o4
        },
        None => o4,
    };
    let o6 = match r.response_format {
        Some(rf) => o5.set(
            "text"@,
            JsonV::empty_object().set("format"@, response_format_to_responses_spec(rf)),
        ),
        None => o5,
    };
    let o7 = match r.reasoning {
        Some(c) => o6.set(
            "reasoning"@,
            JsonV::empty_object().set("effort"@, JsonV::Str(c.spec_effort().spec_name())).set(
                "summary"@,
                JsonV::Str("auto"@),
            ),
        ),
        None => o6,
    };
    let o8 = match r.max_tokens {
        Some(m) => o7.set("max_output_tokens"@, JsonV::UInt(m)),
        None => o7,
    };
    let o9 = set_opt(set_opt(o8, "temperature"@, r.temperature), "top_p"@, r.top_p);
    if r.stream {
        o9.set("stream"@, JsonV::Bool(true))
    } else {
        o9
    }
}

fn tool_to_responses(t: &ToolDef) -> (r: Json)
    ensures
        r@ == tool_to_responses_spec(t@),
{
    let o = typed_exec("function").set("name", Json::Str(t.name.clone())).set(
        "parameters",
        t.parameters.clone(),
    );
    match &t.description {
        Some(d) => o.set("description", Json::Str(d.clone())),
        None => o,
    }
}

fn function_tools(tools: &Vec<ToolDef>) -> (r: Vec<Json>)
    ensures
        view_items(r@) == responses_tools(tools_view(tools@)),
{
    let ghost tv = tools_view(tools@);
    let mut out: Vec<Json> = Vec::new();
    let mut i: usize = 0;
    while i < tools.len()
        invariant
            i <= tools.len(),
            tv == tools_view(tools@),
            tv.len() == tools.len(),
            view_items(out@) == responses_tools(tv.take(i as int)),
        decreases tools.len() - i,
    {
        assert(tv.take(i + 1).drop_last() =~= tv.take(i as int));
        assert(tv.take(i + 1).last() == tools@[i as int]@);
        if tools[i].builtin.is_none() {
            push_json(&mut out, tool_to_responses(&tools[i]));
        }
        i = i + 1;
    }
    assert(tv.take(tools.len() as int) =~= tv);
    out
}

fn tool_choice_to_responses(tc: &ToolChoice) -> (r: Json)
    ensures
        r@ == tool_choice_to_responses_spec(tc@),
{
    match tc {
        ToolChoice::Auto => Json::str("auto"),
        ToolChoice::NoTools => Json::str("none"),
        ToolChoice::Required => Json::str("required"),
        ToolChoice::Tool(n) => typed_exec("function").set("name", Json::Str(n.clone())),
    }
}

fn response_format_to_responses(rf: &ResponseFormat) -> (r: Json)
    ensures
        r@ == response_format_to_responses_spec(rf@),
{
    match rf {
        ResponseFormat::JsonObject => typed_exec("json_object"),
        ResponseFormat::JsonSchema { name, schema, strict } => typed_exec("json_schema").set(
            "name",
            Json::Str(name.clone()),
        ).set("schema", schema.clone()).set("strict", Json::Bool(*strict)),
    }
}

fn opt_number(o: &Option<Json>) -> (r: Option<Json>)
    ensures
        crate::ir::opt_json_view(r) == crate::ir::opt_json_view(*o),
{
    match o {
        Some(j) => Some(j.clone()),
        None => None,
    }
}

fn set_maybe(o: Json, key: &str, v: Option<Json>) -> (r: Json)
    requires
        o@ is Object,
    ensures
        r@ == set_opt(o@, key@, crate::ir::opt_json_view(v)),
        r@ is Object,
{
    match v {
        Some(x) => o.set(key, x),
        None => o,
    }
}

/// Outbound: the IR request as an OpenAI Responses request body.
pub fn render_request(req: &ChatRequest) -> (r: Result<Json, GatewayError>)
    ensures
        r matches Ok(j) && j@ == render_request_spec(req@),
{
    let o = Json::object().set("model", Json::Str(req.model.clone()));
    let o = if req.system.len() > 0 {
        proof {
            lemma_blocks_view(req.system@);
        }
        o.set("instructions", Json::Str(join_blocks_text(&req.system)))
    } else {
        o
    };
    let ghost mv = messages_view(req.messages@);
    let mut input: Vec<Json> = Vec::new();
    let mut i: usize = 0;
    while i < req.messages.len()
        invariant
            i <= req.messages.len(),
            mv == messages_view(req.messages@),
            mv.len() == req.messages.len(),
            view_items(input@) == flatten_all(mv.take(i as int)),
        decreases req.messages.len() - i,
    {
        assert(mv.take(i + 1).drop_last() =~= mv.take(i as int));
        assert(mv.take(i + 1).last() == req.messages@[i as int]@);
        flatten_message(&req.messages[i], &mut input);
        i = i + 1;
    }
    assert(mv.take(req.messages.len() as int) =~= mv);
    let o = o.set("input", Json::array(input));
    let tools = function_tools(&req.tools);
    proof {
        lemma_view_items(tools@);
    }
    let has_tools = tools.len() > 0;
    let o = if has_tools {
        o.set("tools", Json::array(tools))
    } else {
        o
    };
    let o = match &req.tool_choice {
        Some(tc) => if has_tools {
            o.set("tool_choice", tool_choice_to_responses(tc))
        } else {
            o
        },
        None => o,
    };
    let o = match req.parallel_tool_calls {
        Some(p) => if has_tools {
            o.set("parallel_tool_calls", Json::Bool(p))
        } else {
            o
        },
        None => o,
    };
    let o = match &req.response_format {
        Some(rf) => o.set(
            "text",
            Json::object().set("format", response_format_to_responses(rf)),
        ),
        None => o,
    };
    let o = match &req.reasoning {
        Some(c) => o.set(
            "reasoning",
            Json::object().set("effort", Json::str(c.derived_effort().as_str())).set(
                "summary",
                Json::str("auto"),
            ),
        ),
        None => o,
    };
    let o = match req.max_tokens {
        Some(m) => o.set("max_output_tokens", Json::uint(m)),
        None => o,
    };
    let o = set_maybe(o, "temperature", opt_number(&req.temperature));
    let o = set_maybe(o, "top_p", opt_number(&req.top_p));
    let o = if req.stream {
        o.set("stream", Json::Bool(true))
    } else {
        o
    };
    Ok(o)
}

// ---- response --------------------------------------------------------------------

/// The `function_call` and `reasoning` output items of a response, in order.
pub open spec fn response_items(c: Seq<BlockV>) -> Seq<JsonV>
    decreases c.len(),
{
    if c.len() == 0 {
        Seq::empty()
    } else {
        let rest = response_items(c.drop_last());
        match c.last() {
            BlockV::ToolUse { id, name, input } => rest.push(
                typed("function_call"@).set("id"@, JsonV::Str("fc_"@ + id)).set(
                    "call_id"@,
                    JsonV::Str(id),
                ).set("name"@, JsonV::Str(name)).set(
                    "arguments"@,
                    JsonV::Str(value_to_args_spec(input)),
                ),
            ),
            BlockV::Thinking { text, signature: _ } => rest.push(
                typed("reasoning"@).set("summary"@, text_content("summary_text"@, text)),
            ),
            _ => rest,
        }
    }
}

/// A Responses `usage` object; `input_tokens_details` only on a cache hit.
/// The total wraps as release builds' `+` does.
pub open spec fn responses_usage_spec(u: Usage) -> JsonV {
    let o = JsonV::empty_object().set("input_tokens"@, JsonV::UInt(u.input_tokens)).set(
        "output_tokens"@,
        JsonV::UInt(u.output_tokens),
    ).set(
        "total_tokens"@,
        JsonV::UInt(vstd::wrapping::u64_specs::wrapping_add(u.input_tokens, u.output_tokens)),
    );
    if u.cache_read_input_tokens > 0 {
        o.set(
            "input_tokens_details"@,
            JsonV::empty_object().set("cached_tokens"@, JsonV::UInt(u.cache_read_input_tokens)),
        )
    } else {
        o
    }
}

/// The OpenAI Responses response body for an IR response: the text, joined,
/// as one leading message item, then the tool calls and reasoning items.
pub open spec fn render_response_spec(r: ChatResponseV, model: Seq<char>) -> JsonV {
    let text = join_text_spec(r.content);
    let items = response_items(r.content);
    let output = if text.len() > 0 {
        seq![
            typed("message"@).set("role"@, JsonV::Str("assistant"@)).set(
                "content"@,
                text_content("output_text"@, text),
            ),
        ] + items
    } else {
        items
    };
    JsonV::empty_object().set(
        "id"@,
        JsonV::Str(if r.id.len() == 0 { "resp_litellm"@ } else { r.id }),
    ).set("object"@, JsonV::Str("response"@)).set("model"@, JsonV::Str(model)).set(
        "status"@,
        JsonV::Str(
            if r.stop_reason == Some(StopReasonV::MaxTokens) {
                "incomplete"@
            } else {
                "completed"@
            },
        ),
    ).set("output"@, JsonV::Array(output)).set("usage"@, responses_usage_spec(r.usage))
}

pub fn responses_usage(u: &Usage) -> (r: Json)
    ensures
        r@ == responses_usage_spec(*u),
{
    let o = Json::object().set("input_tokens", Json::uint(u.input_tokens)).set(
        "output_tokens",
        Json::uint(u.output_tokens),
    ).set("total_tokens", Json::uint(u.input_tokens.wrapping_add(u.output_tokens)));
    if u.cache_read_input_tokens > 0 {
        o.set(
            "input_tokens_details",
            Json::object().set("cached_tokens", Json::uint(u.cache_read_input_tokens)),
        )
    } else {
        o
    }
}

fn response_output_items(c: &Vec<ContentBlock>) -> (r: Vec<Json>)
    ensures
        view_items(r@) == response_items(blocks_view(c@)),
{
    let ghost bs = blocks_view(c@);
    proof {
        lemma_blocks_view(c@);
    }
    let mut out: Vec<Json> = Vec::new();
    let mut i: usize = 0;
    while i < c.len()
        invariant
            i <= c.len(),
            bs == blocks_view(c@),
            bs.len() == c.len(),
            forall|k: int| 0 <= k < c.len() ==> #[trigger] bs[k] == c@[k]@,
            view_items(out@) == response_items(bs.take(i as int)),
        decreases c.len() - i,
    {
        assert(bs.take(i + 1).drop_last() =~= bs.take(i as int));
        assert(bs.take(i + 1).last() == c@[i as int]@);
        match &c[i] {
            ContentBlock::ToolUse { id, name, input } => {
                let item = typed_exec("function_call").set(
                    "id",
                    Json::Str(concat("fc_", id.as_str())),
                ).set("call_id", Json::Str(id.clone())).set("name", Json::Str(name.clone())).set(
                    "arguments",
                    Json::Str(value_to_args(input)),
                );
                push_json(&mut out, item);
            },
            ContentBlock::Thinking { text, signature: _ } => {
                let item = typed_exec("reasoning").set(
                    "summary",
                    text_content_exec("summary_text", text.clone()),
                );
                push_json(&mut out, item);
            },
            _ => {},
        }
        i = i + 1;
    }
    assert(bs.take(c.len() as int) =~= bs);
    out
}

/// Inbound: the IR response as an OpenAI Responses response body.
pub fn render_response(resp: &ChatResponse, ctx: &RequestCtx) -> (r: Result<Json, GatewayError>)
    ensures
        r matches Ok(j) && j@ == render_response_spec(resp@, ctx.model@),
{
    let text = join_blocks_text(&resp.content);
    let items = response_output_items(&resp.content);
    let output = if !text.as_str().is_empty() {
        let mut out = one(
            typed_exec("message").set("role", Json::str("assistant")).set(
                "content",
                text_content_exec("output_text", text),
            ),
        );
        let ghost oa = out@;
        let ghost ib = items@;
        let mut items = items;
        out.append(&mut items);
        proof {
            lemma_view_items_add(oa, ib);
        }
        out
    } else {
        items
    };
    let id = if resp.id.as_str().is_empty() {
        Json::str("resp_litellm")
    } else {
        Json::Str(resp.id.clone())
    };
    let status = match &resp.stop_reason {
        Some(StopReason::MaxTokens) => Json::str("incomplete"),
        _ => Json::str("completed"),
    };
    Ok(
        Json::object().set("id", id).set("object", Json::str("response")).set(
            "model",
            Json::Str(ctx.model.clone()),
        ).set("status", status).set("output", Json::array(output)).set(
            "usage",
            responses_usage(&resp.usage),
        ),
    )
}

} // verus!
