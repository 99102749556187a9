//! Anthropic SSE streams: parsing upstream events into canonical stream
//! events, and rendering canonical events as Anthropic frames.
use vstd::prelude::*;
use vstd::utf8::encode_utf8;
use crate::codec::anthropic::blocks::{opt_json, usage_from_anthropic, usage_from_anthropic_spec};
use crate::codec::anthropic::render::u64_or;
use crate::codec::common::{opt_get, opt_str_at, str_in};
use crate::errors::{GatewayError, GatewayErrorV};
use crate::ir::{
    BlockStart, BlockStartV, StopReason, StopReasonV, StreamEvent, StreamEventV, Usage,
    events_view, stop_from_anthropic, stop_to_anthropic,
};
use crate::json::{Json, JsonV, parse_json, serde_parse, serde_text, to_json_text};
use crate::sse::{SseEvent, StreamParser, StreamRenderer, frame_text, sse_frame};
use crate::text::{str_eq, trim, trim_seq};

verus! {

broadcast use vstd::string::group_string_axioms;

// ---- parsing -----------------------------------------------------------------

/// The block index an event names, 0 when it names none.
pub open spec fn index_of_spec(data: JsonV) -> usize {
    u64_or(data.get_u64("index"@), 0) as usize
}

pub open spec fn block_start_spec(data: JsonV) -> StreamEventV {
    let cb = data.get("content_block"@);
    let t = match cb {
        Some(c) => c.get_str("type"@),
        None => None,
    };
    StreamEventV::ContentBlockStart {
        index: index_of_spec(data),
        block: if t == Some("tool_use"@) {
            BlockStartV::ToolUse { id: opt_str_at(cb, "id"@), name: opt_str_at(cb, "name"@) }
        } else if t == Some("thinking"@) {
            BlockStartV::Thinking
        } else {
            BlockStartV::Text
        },
    }
}

pub open spec fn block_delta_spec(data: JsonV) -> Seq<StreamEventV> {
    let index = index_of_spec(data);
    let delta = data.get("delta"@);
    let t = match delta {
        Some(d) => d.get_str("type"@),
        None => None,
    };
    if t == Some("text_delta"@) {
        seq![StreamEventV::TextDelta { index, text: opt_str_at(delta, "text"@) }]
    } else if t == Some("thinking_delta"@) {
        seq![StreamEventV::ThinkingDelta { index, text: opt_str_at(delta, "thinking"@) }]
    } else if t == Some("input_json_delta"@) {
        seq![
            StreamEventV::ToolUseInputDelta {
                index,
                partial_json: opt_str_at(delta, "partial_json"@),
            },
        ]
    } else {
        Seq::empty()
    }
}

/// The final usage: output tokens from the delta, input and cache tokens
/// folded in from what `message_start` reported.
pub open spec fn folded_usage(delta_usage: JsonV, start: Usage) -> Usage {
    let u = usage_from_anthropic_spec(Some(delta_usage));
    Usage {
        input_tokens: if u.input_tokens >= start.input_tokens {
            u.input_tokens
        } else {
            start.input_tokens
        },
        output_tokens: u.output_tokens,
        cache_creation_input_tokens: start.cache_creation_input_tokens,
        cache_read_input_tokens: start.cache_read_input_tokens,
    }
}

pub open spec fn message_delta_spec(data: JsonV, start: Usage) -> StreamEventV {
    StreamEventV::MessageDelta {
        stop_reason: match opt_get(data.get("delta"@), "stop_reason"@) {
            Some(JsonV::Str(s)) => Some(stop_from_anthropic(s)),
            _ => None,
        },
        usage: match data.get("usage"@) {
            Some(u) => Some(folded_usage(u, start)),
            None => None,
        },
    }
}

/// The canonical events one parsed Anthropic event of kind `kind` stands for,
/// and the `message_start` usage the parser keeps afterwards.
pub open spec fn anthropic_events(kind: Seq<char>, data: JsonV, start: Usage) -> (
    Seq<StreamEventV>,
    Usage,
) {
    if kind == "message_start"@ {
        let msg = data.get("message"@);
        (
            seq![
                StreamEventV::MessageStart {
                    id: opt_str_at(msg, "id"@),
                    model: opt_str_at(msg, "model"@),
                },
            ],
            usage_from_anthropic_spec(opt_get(msg, "usage"@)),
        )
    } else if kind == "content_block_start"@ {
        (seq![block_start_spec(data)], start)
    } else if kind == "content_block_delta"@ {
        (block_delta_spec(data), start)
    } else if kind == "content_block_stop"@ {
        (seq![StreamEventV::ContentBlockStop { index: index_of_spec(data) }], start)
    } else if kind == "message_delta"@ {
        (seq![message_delta_spec(data, start)], start)
    } else if kind == "message_stop"@ {
        (seq![StreamEventV::MessageStop], start)
    } else {
        (Seq::empty(), start)
    }
}

/// The event name of an SSE event, the empty string when it has none.
pub open spec fn event_kind(e: Option<Seq<char>>) -> Seq<char> {
    match e {
        Some(k) => k,
        None => Seq::empty(),
    }
}

/// Parses Anthropic SSE events. It keeps the usage from `message_start`
/// (Anthropic reports cache tokens there) and folds it into the final
/// `message_delta`, so that downstream renderers see complete usage.
pub struct AnthropicStreamParser {
    pub start_usage: Usage,
}

fn index_of(data: &Json) -> (r: usize)
    ensures
        r == index_of_spec(data@),
{
    let n: u64 = match data.get_u64("index") {
        Some(n) => n,
        None => 0,
    };
    n as usize
}

fn type_is(parent: Option<&Json>, t: &str) -> (r: bool)
    ensures
        r == (match opt_json(parent) {
            Some(c) => c.get_str("type"@),
            None => None,
        } == Some(t@)),
{
    match parent {
        Some(p) => match p.get_str("type") {
            Some(s) => str_eq(s.as_str(), t),
            None => false,
        },
        None => false,
    }
}

fn parse_block_start(data: &Json) -> (r: StreamEvent)
    ensures
        r@ == block_start_spec(data@),
{
    let cb = data.get("content_block");
    let block = if type_is(cb, "tool_use") {
        BlockStart::ToolUse { id: str_in(cb, "id"), name: str_in(cb, "name") }
    } else if type_is(cb, "thinking") {
        BlockStart::Thinking
    } else {
        BlockStart::Text
    };
    StreamEvent::ContentBlockStart { index: index_of(data), block }
}

fn parse_block_delta(data: &Json) -> (r: Vec<StreamEvent>)
    ensures
        events_view(r@) == block_delta_spec(data@),
{
    let index = index_of(data);
    let delta = data.get("delta");
    let mut out: Vec<StreamEvent> = Vec::new();
    if type_is(delta, "text_delta") {
        out.push(StreamEvent::TextDelta { index, text: str_in(delta, "text") });
    } else if type_is(delta, "thinking_delta") {
        out.push(StreamEvent::ThinkingDelta { index, text: str_in(delta, "thinking") });
    } else if type_is(delta, "input_json_delta") {
        out.push(
            StreamEvent::ToolUseInputDelta {
                index,
                partial_json: str_in(delta, "partial_json"),
            },
        );
    }
    assert(events_view(out@) =~= block_delta_spec(data@));
    out
}

fn one(e: StreamEvent) -> (r: Vec<StreamEvent>)
    ensures
        events_view(r@) == seq![e@],
{
    let mut v: Vec<StreamEvent> = Vec::new();
    v.push(e);
    assert(events_view(v@) =~= seq![e@]);
    v
}

impl AnthropicStreamParser {
    pub fn new() -> (r: AnthropicStreamParser)
        ensures
            r.start_usage == (Usage {
                input_tokens: 0,
                output_tokens: 0,
                cache_creation_input_tokens: 0,
                cache_read_input_tokens: 0,
            }),
    {
        AnthropicStreamParser { start_usage: Usage::zero() }
    }

    fn message_delta(&self, data: &Json) -> (r: StreamEvent)
        ensures
            r@ == message_delta_spec(data@, self.start_usage),
    {
        let stop_reason = match data.get("delta") {
            Some(d) => match d.get("stop_reason") {
                Some(Json::Str(s)) => Some(StopReason::from_anthropic(s.as_str())),
                _ => None,
            },
            None => None,
        };
        let usage = match data.get("usage") {
            Some(u) => {
                let mut f = usage_from_anthropic(Some(u));
                if f.input_tokens < self.start_usage.input_tokens {
                    f.input_tokens = self.start_usage.input_tokens;
                }
                f.cache_read_input_tokens = self.start_usage.cache_read_input_tokens;
                f.cache_creation_input_tokens = self.start_usage.cache_creation_input_tokens;
                Some(f)
            },
            None => None,
        };
        StreamEvent::MessageDelta { stop_reason, usage }
    }

    /// The canonical events for one parsed Anthropic event of kind `kind`.
    pub fn on_event(&mut self, kind: &str, data: &Json) -> (r: Vec<StreamEvent>)
        ensures
            (events_view(r@), final(self).start_usage) == anthropic_events(
                kind@,
                data@,
                old(self).start_usage,
            ),
    {
        if str_eq(kind, "message_start") {
            let msg = data.get("message");
            let usage_src = match msg {
                Some(m) => m.get("usage"),
                None => None,
            };
            self.start_usage = usage_from_anthropic(usage_src);
            one(
                StreamEvent::MessageStart {
                    id: str_in(msg, "id"),
                    model: str_in(msg, "model"),
                },
            )
        } else if str_eq(kind, "content_block_start") {
            one(parse_block_start(data))
        } else if str_eq(kind, "content_block_delta") {
            parse_block_delta(data)
        } else if str_eq(kind, "content_block_stop") {
            one(StreamEvent::ContentBlockStop { index: index_of(data) })
        } else if str_eq(kind, "message_delta") {
            one(self.message_delta(data))
        } else if str_eq(kind, "message_stop") {
            one(StreamEvent::MessageStop)
        } else {
            Vec::new()
        }
    }
}

impl StreamParser for AnthropicStreamParser {
    /// Parses one upstream event: blank data yields nothing, data that is no
    /// JSON is an error carrying serde_json's message.
    fn parse_event(&mut self, event: &SseEvent) -> (r: Result<Vec<StreamEvent>, GatewayError>)
        ensures
            trim_seq(event@.data).len() == 0 ==> (r matches Ok(v) && v@.len() == 0
                && final(self).start_usage == old(self).start_usage),
            trim_seq(event@.data).len() != 0 ==> match serde_parse(event@.data) {
                Err(m) => (r matches Err(e) && e@ == GatewayErrorV::InvalidJsonMessage(m)
                    && final(self).start_usage == old(self).start_usage),
                Ok(d) => (r matches Ok(v) && (events_view(v@), final(self).start_usage)
                    == anthropic_events(event_kind(event@.event), d, old(self).start_usage)),
            },
    {
        let blank = trim(event.data.as_str());
        if blank.as_str().is_empty() {
            return Ok(Vec::new());
        }
        let data = match parse_json(event.data.as_str()) {
            Ok(d) => d,
            Err(m) => return Err(GatewayError::InvalidJsonMessage(m)),
        };
        let kind: &str = match &event.event {
            Some(k) => k.as_str(),
            None => "",
        };
        proof {
            reveal_strlit("");
        }
        assert(kind@ == event_kind(event@.event));
        Ok(self.on_event(kind, &data))
    }
}

// ---- rendering -----------------------------------------------------------------

pub open spec fn obj1(k: Seq<char>, v: JsonV) -> JsonV {
    JsonV::empty_object().set(k, v)
}

pub open spec fn typed(t: Seq<char>) -> JsonV {
    obj1("type"@, JsonV::Str(t))
}

pub open spec fn block_start_json(b: BlockStartV) -> JsonV {
    match b {
        BlockStartV::Text => typed("text"@).set("text"@, JsonV::Str(""@)),
        BlockStartV::Thinking => typed("thinking"@).set("thinking"@, JsonV::Str(""@)),
        BlockStartV::ToolUse { id, name } => typed("tool_use"@).set("id"@, JsonV::Str(id)).set(
            "name"@,
            JsonV::Str(name),
        ).set("input"@, JsonV::empty_object()),
    }
}

pub open spec fn delta_frame(index: usize, delta: JsonV) -> (Seq<char>, JsonV) {
    (
        "content_block_delta"@,
        typed("content_block_delta"@).set("index"@, JsonV::UInt(index as u64)).set(
            "delta"@,
            delta,
        ),
    )
}

/// The `usage` of a `message_delta` frame: output tokens, and the input and
/// cache tokens only when some cache tokens were reported.
pub open spec fn delta_usage_json(usage: Option<Usage>) -> JsonV {
    let base = obj1(
        "output_tokens"@,
        JsonV::UInt(
            match usage {
                Some(u) => u.output_tokens,
                None => 0,
            },
        ),
    );
    match usage {
        Some(u) => if u.cache_read_input_tokens > 0 || u.cache_creation_input_tokens > 0 {
            base.set("input_tokens"@, JsonV::UInt(u.spec_non_cached())).set(
                "cache_read_input_tokens"@,
                JsonV::UInt(u.cache_read_input_tokens),
            ).set("cache_creation_input_tokens"@, JsonV::UInt(u.cache_creation_input_tokens))
        } else {
            base
        },
        None => base,
    }
}

/// The event name and data document of the Anthropic frame for one canonical
/// event.
pub open spec fn anthropic_frame(model: Seq<char>, e: StreamEventV) -> (Seq<char>, JsonV) {
    match e {
        StreamEventV::MessageStart { id, model: _ } => (
            "message_start"@,
            typed("message_start"@).set(
                "message"@,
                obj1("id"@, JsonV::Str(if id.len() == 0 { "msg_litellm"@ } else { id })).set(
                    "type"@,
                    JsonV::Str("message"@),
                ).set("role"@, JsonV::Str("assistant"@)).set("model"@, JsonV::Str(model)).set(
                    "content"@,
                    JsonV::Array(Seq::empty()),
                ).set("stop_reason"@, JsonV::Null).set(
                    "usage"@,
                    obj1("input_tokens"@, JsonV::UInt(0)).set("output_tokens"@, JsonV::UInt(0)),
                ),
            ),
        ),
        StreamEventV::ContentBlockStart { index, block } => (
            "content_block_start"@,
            typed("content_block_start"@).set("index"@, JsonV::UInt(index as u64)).set(
                "content_block"@,
                block_start_json(block),
            ),
        ),
        StreamEventV::TextDelta { index, text } => delta_frame(
            index,
            typed("text_delta"@).set("text"@, JsonV::Str(text)),
        ),
        StreamEventV::ThinkingDelta { index, text } => delta_frame(
            index,
            typed("thinking_delta"@).set("thinking"@, JsonV::Str(text)),
        ),
        StreamEventV::ToolUseInputDelta { index, partial_json } => delta_frame(
            index,
            typed("input_json_delta"@).set("partial_json"@, JsonV::Str(partial_json)),
        ),
        StreamEventV::ContentBlockStop { index } => (
            "content_block_stop"@,
            typed("content_block_stop"@).set("index"@, JsonV::UInt(index as u64)),
        ),
        StreamEventV::MessageDelta { stop_reason, usage } => (
            "message_delta"@,
            typed("message_delta"@).set(
                "delta"@,
                obj1(
                    "stop_reason"@,
                    match stop_reason {
                        Some(r) => JsonV::Str(stop_to_anthropic(r)),
                        None => JsonV::Null,
                    },
                ),
            ).set("usage"@, delta_usage_json(usage)),
        ),
        StreamEventV::MessageStop => ("message_stop"@, typed("message_stop"@)),
    }
}

/// The bytes of one named SSE frame whose data is `doc` as serde_json writes it.
pub open spec fn frame_bytes(f: (Seq<char>, JsonV)) -> Seq<u8> {
    encode_utf8(frame_text(Some(f.0), serde_text(f.1)))
}

/// Renders canonical events as Anthropic SSE frames for the client.
pub struct AnthropicStreamRenderer {
    /// Public model name, echoed in `message_start`.
    pub model: String,
}

fn typed_exec(t: &str) -> (r: Json)
    ensures
        r@ == typed(t@),
        r@ is Object,
{
    Json::object().set("type", Json::str(t))
}

fn frame(name: &str, doc: &Json) -> (r: Vec<u8>)
    ensures
        r@ == frame_bytes((name@, doc@)),
{
    let text = to_json_text(doc);
    sse_frame(Some(name), text.as_str())
}

fn index_json(index: usize) -> (r: Json)
    ensures
        r@ == JsonV::UInt(index as u64),
{
    Json::uint(index as u64)
}

fn delta_usage(usage: &Option<Usage>) -> (r: Json)
    ensures
        r@ == delta_usage_json(*usage),
{
    let out = match usage {
        Some(u) => u.output_tokens,
        None => 0,
    };
    let base = Json::object().set("output_tokens", Json::uint(out));
    match usage {
        Some(u) => if u.cache_read_input_tokens > 0 || u.cache_creation_input_tokens > 0 {
            base.set("input_tokens", Json::uint(u.non_cached_input_tokens())).set(
                "cache_read_input_tokens",
                Json::uint(u.cache_read_input_tokens),
            ).set("cache_creation_input_tokens", Json::uint(u.cache_creation_input_tokens))
        } else {
            base
        },
        None => base,
    }
}

impl AnthropicStreamRenderer {
    pub fn new(model: String) -> (r: AnthropicStreamRenderer)
        ensures
            r.model@ == model@,
    {
        AnthropicStreamRenderer { model }
    }

    fn delta(index: usize, d: Json) -> (r: Vec<u8>)
        ensures
            r@ == frame_bytes(delta_frame(index, d@)),
    {
        let doc = typed_exec("content_block_delta").set("index", index_json(index)).set("delta", d);
        frame("content_block_delta", &doc)
    }
}

impl StreamRenderer for AnthropicStreamRenderer {
    fn render_event(&mut self, event: &StreamEvent) -> (r: Vec<u8>)
        ensures
            r@ == frame_bytes(anthropic_frame(old(self).model@, event@)),
            final(self).model@ == old(self).model@,
    {
        match event {
            StreamEvent::MessageStart { id, model: _ } => {
                let id_json = if id.as_str().is_empty() {
                    Json::str("msg_litellm")
                } else {
                    Json::Str(id.clone())
                };
                let msg = Json::object().set("id", id_json).set("type", Json::str("message")).set(
                    "role",
                    Json::str("assistant"),
                ).set("model", Json::Str(self.model.clone())).set(
                    "content",
                    Json::array(Vec::new()),
                ).set("stop_reason", Json::Null).set(
                    "usage",
                    Json::object().set("input_tokens", Json::uint(0)).set(
                        "output_tokens",
                        Json::uint(0),
                    ),
                );
                proof {
                    assert(crate::json::view_items(Seq::<Json>::empty()) =~= Seq::<JsonV>::empty());
                }
                let doc = typed_exec("message_start").set("message", msg);
                frame("message_start", &doc)
            },
            StreamEvent::ContentBlockStart { index, block } => {
                let cb = match block {
                    BlockStart::Text => typed_exec("text").set("text", Json::str("")),
                    BlockStart::Thinking => typed_exec("thinking").set("thinking", Json::str("")),
                    BlockStart::ToolUse { id, name } => typed_exec("tool_use").set(
                        "id",
                        Json::Str(id.clone()),
                    ).set("name", Json::Str(name.clone())).set("input", Json::object()),
                };
                let doc = typed_exec("content_block_start").set("index", index_json(*index)).set(
                    "content_block",
                    cb,
                );
                frame("content_block_start", &doc)
            },
            StreamEvent::TextDelta { index, text } => Self::delta(
                *index,
                typed_exec("text_delta").set("text", Json::Str(text.clone())),
            ),
            StreamEvent::ThinkingDelta { index, text } => Self::delta(
                *index,
                typed_exec("thinking_delta").set("thinking", Json::Str(text.clone())),
            ),
            StreamEvent::ToolUseInputDelta { index, partial_json } => Self::delta(
                *index,
                typed_exec("input_json_delta").set("partial_json", Json::Str(partial_json.clone())),
            ),
            StreamEvent::ContentBlockStop { index } => {
                let doc = typed_exec("content_block_stop").set("index", index_json(*index));
                frame("content_block_stop", &doc)
            },
            StreamEvent::MessageDelta { stop_reason, usage } => {
                let stop = match stop_reason {
                    Some(s) => Json::Str(s.to_anthropic()),
                    None => Json::Null,
                };
                let doc = typed_exec("message_delta").set(
                    "delta",
                    Json::object().set("stop_reason", stop),
                ).set("usage", delta_usage(usage));
                frame("message_delta", &doc)
            },
            StreamEvent::MessageStop => {
                let doc = typed_exec("message_stop");
                frame("message_stop", &doc)
            },
        }
    }
}

} // verus!
