//! Rendering canonical stream events as OpenAI Chat Completions SSE chunks.
use vstd::prelude::*;
use vstd::utf8::encode_utf8;
use std::collections::HashMap;
use crate::codec::openai_chat::render::{obj1, openai_usage, openai_usage_spec};
use crate::ir::{BlockStart, BlockStartV, StopReason, StopReasonV, StreamEvent, StreamEventV, Usage, stop_to_openai};
use crate::json::{Json, JsonV, lemma_view_items, serde_text, to_json_text, view_items};
use crate::sse::{StreamRenderer, frame_text, sse_frame};
use crate::text::owned;

verus! {

broadcast use {vstd::string::group_string_axioms, vstd::std_specs::hash::group_hash_axioms};

/// What the renderer remembers between events: for each tool-use block, the
/// position its call was given in `tool_calls`.
pub struct ChatRendererV {
    pub model: Seq<char>,
    pub id: Seq<char>,
    pub role_sent: bool,
    pub tool_index: Map<usize, usize>,
    pub next_tool: usize,
    pub done_sent: bool,
}

pub open spec fn data_bytes(doc: JsonV) -> Seq<u8> {
    encode_utf8(frame_text(None, serde_text(doc)))
}

/// The `[DONE]` frame.
pub open spec fn done_bytes() -> Seq<u8> {
    encode_utf8(frame_text(None, "[DONE]"@))
}

pub open spec fn chunk_id(s: ChatRendererV) -> Seq<char> {
    if s.id.len() == 0 { "chatcmpl-litellm"@ } else { s.id }
}

pub open spec fn chunk_head(s: ChatRendererV) -> JsonV {
    obj1("id"@, JsonV::Str(chunk_id(s))).set("object"@, JsonV::Str("chat.completion.chunk"@)).set(
        "created"@,
        JsonV::UInt(0),
    ).set("model"@, JsonV::Str(s.model))
}

/// One chunk carrying `delta` in its single choice.
pub open spec fn chunk_spec(s: ChatRendererV, delta: JsonV, finish: Option<Seq<char>>) -> Seq<u8> {
    data_bytes(
        chunk_head(s).set(
            "choices"@,
            JsonV::Array(
                seq![
                    obj1("index"@, JsonV::UInt(0)).set("delta"@, delta).set(
                        "finish_reason"@,
                        match finish {
                            Some(f) => JsonV::Str(f),
                            None => JsonV::Null,
                        },
                    ),
                ],
            ),
        ),
    )
}

/// The bytes one canonical event renders to, and the state after.
pub open spec fn chat_frame(s: ChatRendererV, e: StreamEventV) -> (Seq<u8>, ChatRendererV) {
    match e {
        StreamEventV::MessageStart { id, model: _ } => {
            let s1 = ChatRendererV {
                id: if id.len() == 0 { "chatcmpl-litellm"@ } else { id },
                role_sent: true,
                ..s
            };
            (
                chunk_spec(
                    s1,
                    obj1("role"@, JsonV::Str("assistant"@)).set("content"@, JsonV::Str(""@)),
                    None,
                ),
                s1,
            )
        },
        StreamEventV::ContentBlockStart { index, block } => match block {
            BlockStartV::ToolUse { id, name } => {
                let j = s.next_tool;
                (
                    chunk_spec(
                        s,
                        obj1(
                            "tool_calls"@,
                            JsonV::Array(
                                seq![
                                    obj1("index"@, JsonV::UInt(j as u64)).set("id"@, JsonV::Str(id)).set(
                                        "type"@,
                                        JsonV::Str("function"@),
                                    ).set(
                                        "function"@,
                                        obj1("name"@, JsonV::Str(name)).set(
                                            "arguments"@,
                                            JsonV::Str(""@),
                                        ),
                                    ),
                                ],
                            ),
                        ),
                        None,
                    ),
                    ChatRendererV {
                        next_tool: vstd::wrapping::usize_specs::wrapping_add(j, 1),
                        tool_index: s.tool_index.insert(index, j),
                        ..s
                    },
                )
            },
            _ => (Seq::empty(), s),
        },
        StreamEventV::TextDelta { index: _, text } => (
            chunk_spec(s, obj1("content"@, JsonV::Str(text)), None),
            s,
        ),
        StreamEventV::ThinkingDelta { index: _, text } => (
            chunk_spec(s, obj1("reasoning_content"@, JsonV::Str(text)), None),
            s,
        ),
        StreamEventV::ToolUseInputDelta { index, partial_json } => {
            let j: usize = if s.tool_index.contains_key(index) { s.tool_index[index] } else { 0 };
            (
                chunk_spec(
                    s,
                    obj1(
                        "tool_calls"@,
                        JsonV::Array(
                            seq![
                                obj1("index"@, JsonV::UInt(j as u64)).set(
                                    "function"@,
                                    obj1("arguments"@, JsonV::Str(partial_json)),
                                ),
                            ],
                        ),
                    ),
                    None,
                ),
                s,
            )
        },
        StreamEventV::ContentBlockStop { index: _ } => (Seq::empty(), s),
        StreamEventV::MessageDelta { stop_reason, usage } => {
            let reason = match stop_reason {
                Some(r) => stop_to_openai(r),
                None => "stop"@,
            };
            let first = chunk_spec(s, JsonV::empty_object(), Some(reason));
            (
                match usage {
                    Some(u) => first + data_bytes(
                        chunk_head(s).set("choices"@, JsonV::Array(Seq::empty())).set(
                            "usage"@,
                            openai_usage_spec(u),
                        ),
                    ),
                    None => first,
                },
                s,
            )
        },
        StreamEventV::MessageStop => (done_bytes(), ChatRendererV { done_sent: true, ..s }),
    }
}

/// Renders canonical events as OpenAI Chat Completions SSE chunks.
pub struct OpenAiChatStreamRenderer {
    model: String,
    id: String,
    role_sent: bool,
    tool_index: HashMap<usize, usize>,
    next_tool: usize,
    done_sent: bool,
}

impl View for OpenAiChatStreamRenderer {
    type V = ChatRendererV;

    closed spec fn view(&self) -> ChatRendererV {
        ChatRendererV {
            model: self.model@,
            id: self.id@,
            role_sent: self.role_sent,
            tool_index: self.tool_index@,
            next_tool: self.next_tool,
            done_sent: self.done_sent,
        }
    }
}

fn obj1_exec(k: &str, v: Json) -> (r: Json)
    ensures
        r@ == obj1(k@, v@),
        r@ is Object,
{
    Json::object().set(k, v)
}

fn one(j: Json) -> (r: Json)
    ensures
        r@ == JsonV::Array(seq![j@]),
{
    let v = vec![j];
    proof {
        lemma_view_items(v@);
    }
    assert(view_items(v@) =~= seq![v@[0]@]);
    Json::array(v)
}

impl OpenAiChatStreamRenderer {
    pub fn new(model: String) -> (r: OpenAiChatStreamRenderer)
        ensures
            r@ == (ChatRendererV {
                model: model@,
                id: Seq::empty(),
                role_sent: false,
                tool_index: Map::empty(),
                next_tool: 0,
                done_sent: false,
            }),
    {
        OpenAiChatStreamRenderer {
            model,
            id: String::new(),
            role_sent: false,
            tool_index: HashMap::new(),
            next_tool: 0,
            done_sent: false,
        }
    }

    fn head(&self) -> (r: Json)
        ensures
            r@ == chunk_head(self@),
            r@ is Object,
    {
        let id = if self.id.as_str().is_empty() {
            Json::str("chatcmpl-litellm")
        } else {
            Json::Str(self.id.clone())
        };
        obj1_exec("id", id).set("object", Json::str("chat.completion.chunk")).set(
            "created",
            Json::uint(0),
        ).set("model", Json::Str(self.model.clone()))
    }

    fn chunk(&self, delta: Json, finish: Option<String>) -> (r: Vec<u8>)
        ensures
            r@ == chunk_spec(
                self@,
                delta@,
                match finish {
                    Some(f) => Some(f@),
                    None => None,
                },
            ),
    {
        let fr = match finish {
            Some(f) => Json::Str(f),
            None => Json::Null,
        };
        let choice = obj1_exec("index", Json::uint(0)).set("delta", delta).set("finish_reason", fr);
        let doc = self.head().set("choices", one(choice));
        let text = to_json_text(&doc);
        sse_frame(None, text.as_str())
    }
}

fn done_frame() -> (r: Vec<u8>)
    ensures
        r@ == done_bytes(),
{
    sse_frame(None, "[DONE]")
}

impl StreamRenderer for OpenAiChatStreamRenderer {
    fn render_event(&mut self, event: &StreamEvent) -> (r: Vec<u8>)
        ensures
            (r@, final(self)@) == chat_frame(old(self)@, event@),
    {
        match event {
            StreamEvent::MessageStart { id, model: _ } => {
                self.id = if id.as_str().is_empty() {
                    owned("chatcmpl-litellm")
                } else {
                    id.clone()
                };
                self.role_sent = true;
                self.chunk(
                    obj1_exec("role", Json::str("assistant")).set("content", Json::str("")),
                    None,
                )
            },
            StreamEvent::ContentBlockStart { index, block } => match block {
                BlockStart::ToolUse { id, name } => {
                    let j = self.next_tool;
                    let delta = obj1_exec(
                        "tool_calls",
                        one(
                            obj1_exec("index", Json::uint(j as u64)).set("id", Json::Str(id.clone())).set(
                                "type",
                                Json::str("function"),
                            ).set(
                                "function",
                                obj1_exec("name", Json::Str(name.clone())).set(
                                    "arguments",
                                    Json::str(""),
                                ),
                            ),
                        ),
                    );
                    let out = self.chunk(delta, None);
                    self.next_tool = j.wrapping_add(1);
                    self.tool_index.insert(*index, j);
                    out
                },
                _ => Vec::new(),
            },
            StreamEvent::TextDelta { index: _, text } => self.chunk(
                obj1_exec("content", Json::Str(text.clone())),
                None,
            ),
            StreamEvent::ThinkingDelta { index: _, text } => self.chunk(
                obj1_exec("reasoning_content", Json::Str(text.clone())),
                None,
            ),
            StreamEvent::ToolUseInputDelta { index, partial_json } => {
                let j: usize = match self.tool_index.get(index) {
                    Some(j) => *j,
                    None => 0,
                };
                let delta = obj1_exec(
                    "tool_calls",
                    one(
                        obj1_exec("index", Json::uint(j as u64)).set(
                            "function",
                            obj1_exec("arguments", Json::Str(partial_json.clone())),
                        ),
                    ),
                );
                self.chunk(delta, None)
            },
            StreamEvent::ContentBlockStop { index: _ } => Vec::new(),
            StreamEvent::MessageDelta { stop_reason, usage } => {
                let reason = match stop_reason {
                    Some(r) => r.to_openai(),
                    None => owned("stop"),
                };
                let mut out = self.chunk(Json::object(), Some(reason));
                if let Some(u) = usage {
                    let empty: Vec<Json> = Vec::new();
                    assert(view_items(empty@) =~= Seq::<JsonV>::empty());
                    let doc = self.head().set("choices", Json::array(empty)).set("usage", openai_usage(u));
                    let text = to_json_text(&doc);
                    let mut more = sse_frame(None, text.as_str());
                    out.append(&mut more);
                }
                out
            },
            StreamEvent::MessageStop => {
                self.done_sent = true;
                done_frame()
            },
        }
    }

    /// The `[DONE]` frame when no message stop sent it.
    fn finish(&mut self) -> (r: Vec<u8>)
        ensures
            old(self)@.done_sent ==> r@.len() == 0 && final(self)@ == old(self)@,
            !old(self)@.done_sent ==> r@ == done_bytes() && final(self)@ == (ChatRendererV {
                done_sent: true,
                ..old(self)@
            }),
    {
        if self.done_sent {
            Vec::new()
        } else {
            self.done_sent = true;
            done_frame()
        }
    }
}

} // verus!
