//! Rendering canonical stream events as OpenAI Responses SSE frames.
use vstd::prelude::*;
use std::collections::HashMap;
use crate::codec::anthropic::stream::frame_bytes;
use crate::codec::openai_responses::render::{responses_usage, responses_usage_spec, text_content, typed};
use crate::ir::{BlockStart, BlockStartV, StopReason, StopReasonV, StreamEvent, StreamEventV, Usage, opt_stop_view};
use crate::json::{Json, JsonV, lemma_view_items, serde_text, to_json_text, view_items};
use crate::sse::{StreamRenderer, sse_frame};
use crate::text::{concat, decimal, usize_decimal};

verus! {

broadcast use {vstd::string::group_string_axioms, vstd::std_specs::hash::group_hash_axioms};

/// What a block has accumulated, so that `response.output_item.done` can
/// carry the completed item.
pub enum ItemBuf {
    Message(String),
    Reasoning(String),
    FunctionCall { call_id: String, name: String, args: String },
}

pub enum ItemBufV {
    Message(Seq<char>),
    Reasoning(Seq<char>),
    FunctionCall { call_id: Seq<char>, name: Seq<char>, args: Seq<char> },
}

impl View for ItemBuf {
    type V = ItemBufV;

    open spec fn view(&self) -> ItemBufV {
        match self {
            ItemBuf::Message(t) => ItemBufV::Message(t@),
            ItemBuf::Reasoning(t) => ItemBufV::Reasoning(t@),
            ItemBuf::FunctionCall { call_id, name, args } => ItemBufV::FunctionCall {
                call_id: call_id@,
                name: name@,
                args: args@,
            },
        }
    }
}

pub open spec fn for_block_spec(b: BlockStartV) -> ItemBufV {
    match b {
        BlockStartV::Text => ItemBufV::Message(Seq::empty()),
        BlockStartV::Thinking => ItemBufV::Reasoning(Seq::empty()),
        BlockStartV::ToolUse { id, name } => ItemBufV::FunctionCall {
            call_id: id,
            name,
            args: Seq::empty(),
        },
    }
}

/// The completed output item a buffer stands for.
pub open spec fn into_item_spec(b: ItemBufV, item_id: Seq<char>) -> JsonV {
    match b {
        ItemBufV::Message(text) => typed("message"@).set("id"@, JsonV::Str(item_id)).set(
            "role"@,
            JsonV::Str("assistant"@),
        ).set("status"@, JsonV::Str("completed"@)).set(
            "content"@,
            text_content("output_text"@, text),
        ),
        ItemBufV::Reasoning(text) => typed("reasoning"@).set("id"@, JsonV::Str(item_id)).set(
            "summary"@,
            text_content("summary_text"@, text),
        ),
        ItemBufV::FunctionCall { call_id, name, args } => typed("function_call"@).set(
            "id"@,
            JsonV::Str(item_id),
        ).set("call_id"@, JsonV::Str(call_id)).set("name"@, JsonV::Str(name)).set(
            "arguments"@,
            JsonV::Str(args),
        ).set("status"@, JsonV::Str("completed"@)),
    }
}

impl ItemBuf {
    pub fn for_block(block: &BlockStart) -> (r: ItemBuf)
        ensures
            r@ == for_block_spec(block@),
    {
        match block {
            BlockStart::Text => ItemBuf::Message(String::new()),
            BlockStart::Thinking => ItemBuf::Reasoning(String::new()),
            BlockStart::ToolUse { id, name } => ItemBuf::FunctionCall {
                call_id: id.clone(),
                name: name.clone(),
                args: String::new(),
            },
        }
    }

    pub fn into_item(self, item_id: &str) -> (r: Json)
        ensures
            r@ == into_item_spec(self@, item_id@),
    {
        match self {
            ItemBuf::Message(text) => typed_exec("message").set("id", Json::str(item_id)).set(
                "role",
                Json::str("assistant"),
            ).set("status", Json::str("completed")).set(
                "content",
                text_content_exec("output_text", text),
            ),
            ItemBuf::Reasoning(text) => typed_exec("reasoning").set("id", Json::str(item_id)).set(
                "summary",
                text_content_exec("summary_text", text),
            ),
            ItemBuf::FunctionCall { call_id, name, args } => typed_exec("function_call").set(
                "id",
                Json::str(item_id),
            ).set("call_id", Json::Str(call_id)).set("name", Json::Str(name)).set(
                "arguments",
                Json::Str(args),
            ).set("status", Json::str("completed")),
        }
    }
}

fn typed_exec(t: &str) -> (r: Json)
    ensures
        r@ == typed(t@),
        r@ is Object,
{
    Json::object().set("type", Json::str(t))
}

fn text_content_exec(kind: &str, text: String) -> (r: Json)
    ensures
        r@ == text_content(kind@, text@),
{
    let v = vec![typed_exec(kind).set("text", Json::Str(text))];
    proof {
        lemma_view_items(v@);
    }
    assert(view_items(v@) =~= seq![v@[0]@]);
    Json::array(v)
}

/// What the renderer remembers between events.
pub struct ResponsesRendererV {
    pub model: Seq<char>,
    pub id: Seq<char>,
    pub next_oi: usize,
    pub stop_reason: Option<StopReasonV>,
    pub usage: Option<Usage>,
    pub items: Map<usize, ItemBufV>,
}

pub open spec fn item_id_spec(oi: usize) -> Seq<char> {
    "item_"@ + decimal(oi as nat)
}

pub open spec fn with_index(t: Seq<char>, oi: usize) -> JsonV {
    typed(t).set("output_index"@, JsonV::UInt(oi as u64))
}

/// The `output_item.added` item for a block that starts.
pub open spec fn added_item(oi: usize, b: BlockStartV) -> JsonV {
    let id = JsonV::Str(item_id_spec(oi));
    match b {
        BlockStartV::Text => typed("message"@).set("id"@, id).set(
            "role"@,
            JsonV::Str("assistant"@),
        ).set("content"@, JsonV::Array(Seq::empty())),
        BlockStartV::Thinking => typed("reasoning"@).set("id"@, id).set(
            "summary"@,
            JsonV::Array(Seq::empty()),
        ),
        BlockStartV::ToolUse { id: call_id, name } => typed("function_call"@).set("id"@, id).set(
            "call_id"@,
            JsonV::Str(call_id),
        ).set("name"@, JsonV::Str(name)).set("arguments"@, JsonV::Str(""@)),
    }
}

/// The frames for a block start: the item, and for text also its first part.
pub open spec fn block_start_bytes(oi: usize, b: BlockStartV) -> Seq<u8> {
    let added = frame_bytes(
        (
            "response.output_item.added"@,
            with_index("response.output_item.added"@, oi).set("item"@, added_item(oi, b)),
        ),
    );
    match b {
        BlockStartV::Text => added + frame_bytes(
            (
                "response.content_part.added"@,
                typed("response.content_part.added"@).set(
                    "item_id"@,
                    JsonV::Str(item_id_spec(oi)),
                ).set("output_index"@, JsonV::UInt(oi as u64)).set(
                    "content_index"@,
                    JsonV::UInt(0),
                ).set(
                    "part"@,
                    typed("output_text"@).set("text"@, JsonV::Str(""@)),
                ),
            ),
        ),
        _ => added,
    }
}

pub open spec fn delta_bytes(t: Seq<char>, oi: usize, text: Seq<char>, with_content: bool) -> Seq<u8> {
    let base = typed(t).set("item_id"@, JsonV::Str(item_id_spec(oi))).set(
        "output_index"@,
        JsonV::UInt(oi as u64),
    );
    frame_bytes(
        (
            t,
            if with_content {
                base.set("content_index"@, JsonV::UInt(0)).set("delta"@, JsonV::Str(text))
            } else {
                base.set("delta"@, JsonV::Str(text))
            },
        ),
    )
}

/// `items` with `text` appended to the buffer at `oi` when that buffer is of
/// the kind `kind` (0 message, 1 reasoning, else tool call).
pub open spec fn appended(items: Map<usize, ItemBufV>, oi: usize, kind: u8, text: Seq<char>) -> Map<
    usize,
    ItemBufV,
> {
    if items.contains_key(oi) {
        match items[oi] {
            ItemBufV::Message(t) => if kind == 0 {
                items.insert(oi, ItemBufV::Message(t + text))
            } else {
                items
            },
            ItemBufV::Reasoning(t) => if kind == 1 {
                items.insert(oi, ItemBufV::Reasoning(t + text))
            } else {
                items
            },
            ItemBufV::FunctionCall { call_id, name, args } => if kind != 0 && kind != 1 {
                items.insert(oi, ItemBufV::FunctionCall { call_id, name, args: args + text })
            } else {
                items
            },
        }
    } else {
        items
    }
}

pub open spec fn zero_usage() -> Usage {
    Usage { input_tokens: 0, output_tokens: 0, cache_creation_input_tokens: 0, cache_read_input_tokens: 0 }
}

/// The closing frame: `response.failed` for a surfaced error,
/// `response.incomplete` for a truncated or filtered stream, else
/// `response.completed`.
pub open spec fn message_stop_bytes(s: ResponsesRendererV) -> Seq<u8> {
    let usage = responses_usage_spec(
        match s.usage {
            Some(u) => u,
            None => zero_usage(),
        },
    );
    let base = JsonV::empty_object().set("id"@, JsonV::Str(s.id)).set(
        "object"@,
        JsonV::Str("response"@),
    ).set("model"@, JsonV::Str(s.model));
    match s.stop_reason {
        Some(StopReasonV::Other(message)) => frame_bytes(
            (
                "response.failed"@,
                typed("response.failed"@).set(
                    "response"@,
                    base.set("status"@, JsonV::Str("failed"@)).set(
                        "error"@,
                        JsonV::empty_object().set("message"@, JsonV::Str(message)),
                    ).set("usage"@, usage),
                ),
            ),
        ),
        _ => {
            let reason: Option<Seq<char>> = match s.stop_reason {
                Some(StopReasonV::MaxTokens) => Some("max_output_tokens"@),
                Some(StopReasonV::ContentFilter) => Some("content_filter"@),
                _ => None,
            };
            let event = if reason is Some {
                "response.incomplete"@
            } else {
                "response.completed"@
            };
            let response = base.set(
                "status"@,
                JsonV::Str(if reason is Some { "incomplete"@ } else { "completed"@ }),
            ).set("usage"@, usage);
            let response = match reason {
                Some(r) => response.set(
                    "incomplete_details"@,
                    JsonV::empty_object().set("reason"@, JsonV::Str(r)),
                ),
                None => response,
            };
            frame_bytes((event, typed(event).set("response"@, response)))
        },
    }
}

/// The bytes one canonical event renders to, and the renderer's state after.
pub open spec fn responses_frame(s: ResponsesRendererV, e: StreamEventV) -> (Seq<u8>, ResponsesRendererV) {
    match e {
        StreamEventV::MessageStart { id, model: _ } => {
            let rid = if id.len() == 0 { "resp_litellm"@ } else { id };
            (
                frame_bytes(
                    (
                        "response.created"@,
                        typed("response.created"@).set(
                            "response"@,
                            JsonV::empty_object().set("id"@, JsonV::Str(rid)).set(
                                "object"@,
                                JsonV::Str("response"@),
                            ).set("model"@, JsonV::Str(s.model)).set(
                                "status"@,
                                JsonV::Str("in_progress"@),
                            ),
                        ),
                    ),
                ),
                ResponsesRendererV { id: rid, ..s },
            )
        },
        StreamEventV::ContentBlockStart { index, block } => {
            let nxt = vstd::wrapping::usize_specs::wrapping_add(index, 1);
            (
                block_start_bytes(index, block),
                ResponsesRendererV {
                    next_oi: if s.next_oi >= nxt { s.next_oi } else { nxt },
                    items: s.items.insert(index, for_block_spec(block)),
                    ..s
                },
            )
        },
        StreamEventV::TextDelta { index, text } => (
            delta_bytes("response.output_text.delta"@, index, text, true),
            ResponsesRendererV { items: appended(s.items, index, 0, text), ..s },
        ),
        StreamEventV::ThinkingDelta { index, text } => (
            delta_bytes("response.reasoning_summary_text.delta"@, index, text, false),
            ResponsesRendererV { items: appended(s.items, index, 1, text), ..s },
        ),
        StreamEventV::ToolUseInputDelta { index, partial_json } => (
            delta_bytes("response.function_call_arguments.delta"@, index, partial_json, false),
            ResponsesRendererV { items: appended(s.items, index, 2, partial_json), ..s },
        ),
        StreamEventV::ContentBlockStop { index } => (
            frame_bytes(
                (
                    "response.output_item.done"@,
                    with_index("response.output_item.done"@, index).set(
                        "item"@,
                        if s.items.contains_key(index) {
                            into_item_spec(s.items[index], item_id_spec(index))
                        } else {
                            JsonV::Null
                        },
                    ),
                ),
            ),
            ResponsesRendererV { items: s.items.remove(index), ..s },
        ),
        StreamEventV::MessageDelta { stop_reason, usage } => (
            Seq::empty(),
            ResponsesRendererV { stop_reason, usage, ..s },
        ),
        StreamEventV::MessageStop => (message_stop_bytes(s), s),
    }
}

/// Renders canonical events as OpenAI Responses SSE frames for the client.
pub struct ResponsesStreamRenderer {
    model: String,
    id: String,
    next_oi: usize,
    stop_reason: Option<StopReason>,
    usage: Option<Usage>,
    items: HashMap<usize, ItemBuf>,
}

impl View for ResponsesStreamRenderer {
    type V = ResponsesRendererV;

    closed spec fn view(&self) -> ResponsesRendererV {
        ResponsesRendererV {
            model: self.model@,
            id: self.id@,
            next_oi: self.next_oi,
            stop_reason: opt_stop_view(self.stop_reason),
            usage: self.usage,
            items: self.items@.map_values(|b: ItemBuf| b@),
        }
    }
}

fn frame(name: &str, doc: &Json) -> (r: Vec<u8>)
    ensures
        r@ == frame_bytes((name@, doc@)),
{
    let text = to_json_text(doc);
    sse_frame(Some(name), text.as_str())
}

fn item_id(oi: usize) -> (r: String)
    ensures
        r@ == item_id_spec(oi),
{
    let d = usize_decimal(oi);
    concat("item_", d.as_str())
}

fn index_json(oi: usize) -> (r: Json)
    ensures
        r@ == JsonV::UInt(oi as u64),
{
    Json::uint(oi as u64)
}

fn empty_array() -> (r: Json)
    ensures
        r@ == JsonV::Array(Seq::empty()),
{
    let v: Vec<Json> = Vec::new();
    assert(view_items(v@) =~= Seq::<JsonV>::empty());
    Json::array(v)
}

impl ResponsesStreamRenderer {
    pub fn new(model: String) -> (r: ResponsesStreamRenderer)
        ensures
            r@ == (ResponsesRendererV {
                model: model@,
                id: Seq::empty(),
                next_oi: 0,
                stop_reason: None,
                usage: None,
                items: Map::empty(),
            }),
    {
        let r = ResponsesStreamRenderer {
            model,
            id: String::new(),
            next_oi: 0,
            stop_reason: None,
            usage: None,
            items: HashMap::new(),
        };
        assert(r@.items =~= Map::<usize, ItemBufV>::empty());
        r
    }

    fn on_block_start(&mut self, index: usize, block: &BlockStart) -> (r: Vec<u8>)
        ensures
            (r@, final(self)@) == responses_frame(
                old(self)@,
                StreamEventV::ContentBlockStart { index, block: block@ },
            ),
    {
        let nxt = index.wrapping_add(1);
        if self.next_oi < nxt {
            self.next_oi = nxt;
        }
        let iid = item_id(index);
        let ghost before = self.items@;
        self.items.insert(index, ItemBuf::for_block(block));
        assert(self.items@.map_values(|b: ItemBuf| b@) =~= before.map_values(|b: ItemBuf| b@).insert(
            index,
            for_block_spec(block@),
        ));
        let item = match block {
            BlockStart::Text => typed_exec("message").set("id", Json::Str(iid.clone())).set(
                "role",
                Json::str("assistant"),
            ).set("content", empty_array()),
            BlockStart::Thinking => typed_exec("reasoning").set("id", Json::Str(iid.clone())).set(
                "summary",
                empty_array(),
            ),
            BlockStart::ToolUse { id, name } => typed_exec("function_call").set(
                "id",
                Json::Str(iid.clone()),
            ).set("call_id", Json::Str(id.clone())).set("name", Json::Str(name.clone())).set(
                "arguments",
                Json::str(""),
            ),
        };
        let added = typed_exec("response.output_item.added").set("output_index", index_json(index)).set(
            "item",
            item,
        );
        let mut out = frame("response.output_item.added", &added);
        match block {
            BlockStart::Text => {
                let part = typed_exec("response.content_part.added").set("item_id", Json::Str(iid)).set(
                    "output_index",
                    index_json(index),
                ).set("content_index", Json::uint(0)).set(
                    "part",
                    typed_exec("output_text").set("text", Json::str("")),
                );
                let mut second = frame("response.content_part.added", &part);
                out.append(&mut second);
            },
            _ => {},
        }
        out
    }

    fn delta(&mut self, t: &str, index: usize, text: &String, kind: u8) -> (r: Vec<u8>)
        ensures
            r@ == delta_bytes(t@, index, text@, kind == 0),
            final(self)@ == (ResponsesRendererV {
                items: appended(old(self)@.items, index, kind, text@),
                ..old(self)@
            }),
    {
        let ghost before = self.items@;
        match self.items.remove(&index) {
            Some(buf) => {
                let updated = match buf {
                    ItemBuf::Message(t0) => if kind == 0 {
                        ItemBuf::Message(concat(t0.as_str(), text.as_str()))
                    } else {
                        ItemBuf::Message(t0)
                    },
                    ItemBuf::Reasoning(t0) => if kind == 1 {
                        ItemBuf::Reasoning(concat(t0.as_str(), text.as_str()))
                    } else {
                        ItemBuf::Reasoning(t0)
                    },
                    ItemBuf::FunctionCall { call_id, name, args } => if kind != 0 && kind != 1 {
                        ItemBuf::FunctionCall {
                            call_id,
                            name,
                            args: concat(args.as_str(), text.as_str()),
                        }
                    } else {
                        ItemBuf::FunctionCall { call_id, name, args }
                    },
                };
                self.items.insert(index, updated);
                assert(self.items@.map_values(|b: ItemBuf| b@) =~= appended(
                    before.map_values(|b: ItemBuf| b@),
                    index,
                    kind,
                    text@,
                ));
            },
            None => {
                assert(self.items@.map_values(|b: ItemBuf| b@) =~= appended(
                    before.map_values(|b: ItemBuf| b@),
                    index,
                    kind,
                    text@,
                ));
            },
        }
        let base = typed_exec(t).set("item_id", Json::Str(item_id(index))).set(
            "output_index",
            index_json(index),
        );
        let doc = if kind == 0 {
            base.set("content_index", Json::uint(0)).set("delta", Json::Str(text.clone()))
        } else {
            base.set("delta", Json::Str(text.clone()))
        };
        frame(t, &doc)
    }

    fn on_item_done(&mut self, index: usize) -> (r: Vec<u8>)
        ensures
            (r@, final(self)@) == responses_frame(
                old(self)@,
                StreamEventV::ContentBlockStop { index },
            ),
    {
        let ghost before = self.items@;
        let item = match self.items.remove(&index) {
            Some(buf) => buf.into_item(item_id(index).as_str()),
            None => Json::Null,
        };
        assert(self.items@.map_values(|b: ItemBuf| b@) =~= before.map_values(|b: ItemBuf| b@).remove(
            index,
        ));
        let doc = typed_exec("response.output_item.done").set("output_index", index_json(index)).set(
            "item",
            item,
        );
        frame("response.output_item.done", &doc)
    }

    fn on_message_stop(&self) -> (r: Vec<u8>)
        ensures
            r@ == message_stop_bytes(self@),
    {
        let usage = match &self.usage {
            Some(u) => *u,
            None => Usage::zero(),
        };
        let base = Json::object().set("id", Json::Str(self.id.clone())).set(
            "object",
            Json::str("response"),
        ).set("model", Json::Str(self.model.clone()));
        if let Some(StopReason::Other(message)) = &self.stop_reason {
            let response = base.set("status", Json::str("failed")).set(
                "error",
                Json::object().set("message", Json::Str(message.clone())),
            ).set("usage", responses_usage(&usage));
            let doc = typed_exec("response.failed").set("response", response);
            return frame("response.failed", &doc);
        }
        let reason: Option<&str> = match &self.stop_reason {
            Some(StopReason::MaxTokens) => Some("max_output_tokens"),
            Some(StopReason::ContentFilter) => Some("content_filter"),
            _ => None,
        };
        let event = if reason.is_some() {
            "response.incomplete"
        } else {
            "response.completed"
        };
        let status = if reason.is_some() {
            "incomplete"
        } else {
            "completed"
        };
        let response = base.set("status", Json::str(status)).set("usage", responses_usage(&usage));
        let response = match reason {
            Some(r) => response.set("incomplete_details", Json::object().set("reason", Json::str(r))),
            None => response,
        };
        let doc = typed_exec(event).set("response", response);
        frame(event, &doc)
    }
}

fn copy_usage(u: &Option<Usage>) -> (r: Option<Usage>)
    ensures
        r == *u,
{
    match u {
        Some(x) => Some(*x),
        None => None,
    }
}

impl StreamRenderer for ResponsesStreamRenderer {
    fn render_event(&mut self, event: &StreamEvent) -> (r: Vec<u8>)
        ensures
            (r@, final(self)@) == responses_frame(old(self)@, event@),
    {
        match event {
            StreamEvent::MessageStart { id, model: _ } => {
                self.id = if id.as_str().is_empty() {
                    crate::text::owned("resp_litellm")
                } else {
                    id.clone()
                };
                let response = Json::object().set("id", Json::Str(self.id.clone())).set(
                    "object",
                    Json::str("response"),
                ).set("model", Json::Str(self.model.clone())).set(
                    "status",
                    Json::str("in_progress"),
                );
                let doc = typed_exec("response.created").set("response", response);
                frame("response.created", &doc)
            },
            StreamEvent::ContentBlockStart { index, block } => self.on_block_start(*index, block),
            StreamEvent::TextDelta { index, text } => self.delta(
                "response.output_text.delta",
                *index,
                text,
                0,
            ),
            StreamEvent::ThinkingDelta { index, text } => self.delta(
                "response.reasoning_summary_text.delta",
                *index,
                text,
                1,
            ),
            StreamEvent::ToolUseInputDelta { index, partial_json } => self.delta(
                "response.function_call_arguments.delta",
                *index,
                partial_json,
                2,
            ),
            StreamEvent::ContentBlockStop { index } => self.on_item_done(*index),
            StreamEvent::MessageDelta { stop_reason, usage } => {
                self.stop_reason = match stop_reason {
                    Some(s) => Some(s.copy()),
                    None => None,
                };
                self.usage = copy_usage(usage);
                Vec::new()
            },
            StreamEvent::MessageStop => self.on_message_stop(),
        }
    }
}

} // verus!
