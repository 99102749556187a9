//! Rendering canonical stream events as Gemini `streamGenerateContent` frames.
use vstd::prelude::*;
use vstd::utf8::encode_utf8;
use std::collections::HashMap;
use crate::codec::gemini::common::{gemini_usage, gemini_usage_spec};
use crate::codec::gemini::parts::obj1;
use crate::ir::{BlockStart, BlockStartV, StopReason, StopReasonV, StreamEvent, StreamEventV, Usage, opt_stop_view, stop_to_gemini};
use crate::json::{Json, JsonV, lemma_view_items, parse_json, serde_parse, serde_text, to_json_text, view_items};
use crate::sse::{StreamRenderer, frame_text, sse_frame};
use crate::text::{concat, owned};

verus! {

broadcast use {vstd::string::group_string_axioms, vstd::std_specs::hash::group_hash_axioms};

/// What the renderer remembers between events: for each tool call in
/// flight, its function name and the argument text so far.
pub struct GeminiRendererV {
    pub tool_args: Map<usize, (Seq<char>, Seq<char>)>,
    pub stop_reason: Option<StopReasonV>,
    pub usage: Option<Usage>,
    pub sent_finish: bool,
}

/// The bytes of one unnamed SSE frame whose data is `doc`.
pub open spec fn data_bytes(doc: JsonV) -> Seq<u8> {
    encode_utf8(frame_text(None, serde_text(doc)))
}

/// One streamed candidate chunk.
pub open spec fn chunk_doc(parts: Seq<JsonV>, finish: Option<Seq<char>>, usage: Option<Usage>) -> JsonV {
    let c = obj1(
        "content"@,
        obj1("role"@, JsonV::Str("model"@)).set("parts"@, JsonV::Array(parts)),
    ).set("index"@, JsonV::UInt(0));
    let c = match finish {
        Some(f) => c.set("finishReason"@, JsonV::Str(f)),
        None => c,
    };
    let d = obj1("candidates"@, JsonV::Array(seq![c]));
    match usage {
        Some(u) => d.set("usageMetadata"@, gemini_usage_spec(u)),
        None => d,
    }
}

/// The arguments a finished call carries: the buffered text parsed as JSON,
/// or an empty object where serde_json rejects it.
pub open spec fn args_of(buf: Seq<char>) -> JsonV {
    match serde_parse(buf) {
        Ok(v) => v,
        Err(_) => JsonV::empty_object(),
    }
}

pub open spec fn error_doc(message: Seq<char>) -> JsonV {
    obj1(
        "error"@,
        obj1("code"@, JsonV::UInt(502)).set("message"@, JsonV::Str(message)).set(
            "status"@,
            JsonV::Str("UNKNOWN"@),
        ),
    )
}

/// The bytes one canonical event renders to, and the state after. Text and
/// thoughts stream as they come; a tool call is sent whole when its block
/// stops; the finish goes with the message stop.
pub open spec fn gemini_frame(s: GeminiRendererV, e: StreamEventV) -> (Seq<u8>, GeminiRendererV) {
    match e {
        StreamEventV::ContentBlockStart { index, block } => match block {
            BlockStartV::ToolUse { id: _, name } => (
                Seq::empty(),
                GeminiRendererV { tool_args: s.tool_args.insert(index, (name, Seq::empty())), ..s },
            ),
            _ => (Seq::empty(), s),
        },
        StreamEventV::TextDelta { index: _, text } => (
            data_bytes(chunk_doc(seq![obj1("text"@, JsonV::Str(text))], None, None)),
            s,
        ),
        StreamEventV::ThinkingDelta { index: _, text } => (
            data_bytes(
                chunk_doc(
                    seq![obj1("text"@, JsonV::Str(text)).set("thought"@, JsonV::Bool(true))],
                    None,
                    None,
                ),
            ),
            s,
        ),
        StreamEventV::ToolUseInputDelta { index, partial_json } => (
            Seq::empty(),
            if s.tool_args.contains_key(index) {
                GeminiRendererV {
                    tool_args: s.tool_args.insert(
                        index,
                        (s.tool_args[index].0, s.tool_args[index].1 + partial_json),
                    ),
                    ..s
                }
            } else {
                s
            },
        ),
        StreamEventV::ContentBlockStop { index } => if s.tool_args.contains_key(index) {
            let (name, buf) = s.tool_args[index];
            (
                data_bytes(
                    chunk_doc(
                        seq![
                            obj1(
                                "functionCall"@,
                                obj1("name"@, JsonV::Str(name)).set("args"@, args_of(buf)),
                            ),
                        ],
                        None,
                        None,
                    ),
                ),
                GeminiRendererV { tool_args: s.tool_args.remove(index), ..s },
            )
        } else {
            (Seq::empty(), s)
        },
        StreamEventV::MessageDelta { stop_reason, usage } => (
            Seq::empty(),
            GeminiRendererV { stop_reason, usage, ..s },
        ),
        StreamEventV::MessageStop => (
            match s.stop_reason {
                Some(StopReasonV::Other(message)) => data_bytes(error_doc(message)),
                _ => data_bytes(
                    chunk_doc(
                        Seq::empty(),
                        Some(
                            match s.stop_reason {
                                Some(r) => stop_to_gemini(r),
                                None => "STOP"@,
                            },
                        ),
                        s.usage,
                    ),
                ),
            },
            GeminiRendererV { sent_finish: true, ..s },
        ),
        _ => (Seq::empty(), s),
    }
}

/// Renders canonical events as Gemini SSE chunks for the client.
pub struct GeminiStreamRenderer {
    tool_args: HashMap<usize, (String, String)>,
    stop_reason: Option<StopReason>,
    usage: Option<Usage>,
    sent_finish: bool,
}

impl View for GeminiStreamRenderer {
    type V = GeminiRendererV;

    closed spec fn view(&self) -> GeminiRendererV {
        GeminiRendererV {
            tool_args: self.tool_args@.map_values(|p: (String, String)| (p.0@, p.1@)),
            stop_reason: opt_stop_view(self.stop_reason),
            usage: self.usage,
            sent_finish: self.sent_finish,
        }
    }
}

fn obj1_exec(k: &str, v: Json) -> (r: Json)
    ensures
        r@ == obj1(k@, v@),
        r@ is Object,
{
    Json::object().set(k, v)
}

spec fn part_seq(part: Option<Json>) -> Seq<JsonV> {
    match part {
        Some(p) => seq![p@],
        None => Seq::empty(),
    }
}

fn chunk(part: Option<Json>, finish: Option<String>, usage: Option<Usage>) -> (r: Vec<u8>)
    ensures
        r@ == data_bytes(
            chunk_doc(
                match part {
                    Some(p) => seq![p@],
                    None => Seq::empty(),
                },
                match finish {
                    Some(f) => Some(f@),
                    None => None,
                },
                usage,
            ),
        ),
{
    let mut parts: Vec<Json> = Vec::new();
    let ghost pv: Seq<JsonV> = part_seq(part);
    match part {
        Some(p) => parts.push(p),
        None => {},
    }
    proof {
        lemma_view_items(parts@);
    }
    assert(view_items(parts@) =~= pv);
    let c = obj1_exec("content", obj1_exec("role", Json::str("model")).set("parts", Json::array(parts))).set(
        "index",
        Json::uint(0),
    );
    let c = match finish {
        Some(f) => c.set("finishReason", Json::Str(f)),
        None => c,
    };
    let v = vec![c];
    proof {
        lemma_view_items(v@);
    }
    assert(view_items(v@) =~= seq![v@[0]@]);
    let d = obj1_exec("candidates", Json::array(v));
    let d = match usage {
        Some(u) => d.set("usageMetadata", gemini_usage(&u)),
        None => d,
    };
    let text = to_json_text(&d);
    sse_frame(None, text.as_str())
}

impl GeminiStreamRenderer {
    pub fn new() -> (r: GeminiStreamRenderer)
        ensures
            r@ == (GeminiRendererV {
                tool_args: Map::empty(),
                stop_reason: None,
                usage: None,
                sent_finish: false,
            }),
    {
        let r = GeminiStreamRenderer {
            tool_args: HashMap::new(),
            stop_reason: None,
            usage: None,
            sent_finish: false,
        };
        assert(r@.tool_args =~= Map::<usize, (Seq<char>, Seq<char>)>::empty());
        r
    }

    fn render_block_stop(&mut self, index: usize) -> (r: Vec<u8>)
        ensures
            (r@, final(self)@) == gemini_frame(old(self)@, StreamEventV::ContentBlockStop { index }),
    {
        let ghost before = self.tool_args@;
        match self.tool_args.remove(&index) {
            Some((name, buf)) => {
                assert(self.tool_args@.map_values(|p: (String, String)| (p.0@, p.1@)) =~= before.map_values(
                    |p: (String, String)| (p.0@, p.1@),
                ).remove(index));
                let args = match parse_json(buf.as_str()) {
                    Ok(v) => v,
                    Err(_) => Json::object(),
                };
                let part = obj1_exec("functionCall", obj1_exec("name", Json::Str(name)).set("args", args));
                chunk(Some(part), None, None)
            },
            None => {
                assert(self.tool_args@ =~= before);
                Vec::new()
            },
        }
    }

    fn render_message_stop(&mut self) -> (r: Vec<u8>)
        ensures
            (r@, final(self)@) == gemini_frame(old(self)@, StreamEventV::MessageStop),
    {
        self.sent_finish = true;
        if let Some(StopReason::Other(message)) = &self.stop_reason {
            let err = obj1_exec(
                "error",
                obj1_exec("code", Json::uint(502)).set("message", Json::Str(message.clone())).set(
                    "status",
                    Json::str("UNKNOWN"),
                ),
            );
            let text = to_json_text(&err);
            return sse_frame(None, text.as_str());
        }
        let finish = match &self.stop_reason {
            Some(r) => r.to_gemini(),
            None => owned("STOP"),
        };
        let usage = match &self.usage {
            Some(u) => Some(*u),
            None => None,
        };
        chunk(None, Some(finish), usage)
    }
}

impl StreamRenderer for GeminiStreamRenderer {
    fn render_event(&mut self, event: &StreamEvent) -> (r: Vec<u8>)
        ensures
            (r@, final(self)@) == gemini_frame(old(self)@, event@),
    {
        match event {
            StreamEvent::ContentBlockStart { index, block } => match block {
                BlockStart::ToolUse { id: _, name } => {
                    let ghost before = self.tool_args@;
                    self.tool_args.insert(*index, (name.clone(), String::new()));
                    assert(self.tool_args@.map_values(|p: (String, String)| (p.0@, p.1@)) =~= before.map_values(
                        |p: (String, String)| (p.0@, p.1@),
                    ).insert(*index, (name@, Seq::empty())));
                    Vec::new()
                },
                _ => Vec::new(),
            },
            StreamEvent::TextDelta { index: _, text } => chunk(
                Some(obj1_exec("text", Json::Str(text.clone()))),
                None,
                None,
            ),
            StreamEvent::ThinkingDelta { index: _, text } => chunk(
                Some(obj1_exec("text", Json::Str(text.clone())).set("thought", Json::Bool(true))),
                None,
                None,
            ),
            StreamEvent::ToolUseInputDelta { index, partial_json } => {
                let ghost before = self.tool_args@;
                match self.tool_args.remove(index) {
                    Some((name, buf)) => {
                        let joined = concat(buf.as_str(), partial_json.as_str());
                        self.tool_args.insert(*index, (name, joined));
                        assert(self.tool_args@.map_values(|p: (String, String)| (p.0@, p.1@)) =~= before.map_values(
                            |p: (String, String)| (p.0@, p.1@),
                        ).insert(
                            *index,
                            (before[*index].0@, before[*index].1@ + partial_json@),
                        ));
                    },
                    None => {
                        assert(self.tool_args@ =~= before);
                    },
                }
                Vec::new()
            },
            StreamEvent::ContentBlockStop { index } => self.render_block_stop(*index),
            StreamEvent::MessageDelta { stop_reason, usage } => {
                self.stop_reason = match stop_reason {
                    Some(s) => Some(s.copy()),
                    None => None,
                };
                self.usage = match usage {
                    Some(u) => Some(*u),
                    None => None,
                };
                Vec::new()
            },
            StreamEvent::MessageStop => self.render_message_stop(),
            StreamEvent::MessageStart { .. } => Vec::new(),
        }
    }

    /// A closing `STOP` chunk when no message stop was rendered.
    fn finish(&mut self) -> (r: Vec<u8>)
        ensures
            old(self)@.sent_finish ==> r@.len() == 0 && final(self)@ == old(self)@,
            !old(self)@.sent_finish ==> r@ == data_bytes(chunk_doc(Seq::empty(), Some("STOP"@), None))
                && final(self)@ == (GeminiRendererV { sent_finish: true, ..old(self)@ }),
    {
        if self.sent_finish {
            Vec::new()
        } else {
            self.sent_finish = true;
            chunk(None, Some(owned("STOP")), None)
        }
    }
}

} // verus!
