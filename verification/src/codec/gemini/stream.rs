//! Parsing a Gemini `streamGenerateContent` SSE stream into canonical events.
use vstd::prelude::*;
use crate::codec::anthropic::blocks::opt_json;
use crate::codec::common::or_else;
use crate::codec::gemini::common::{field, field_exec, usage_from_gemini, usage_from_gemini_spec};
use crate::codec::gemini::parse::{candidate_parts, first_candidate};
use crate::codec::gemini::parts::{surrogate_id, surrogate_id_spec};
use crate::errors::{GatewayError, GatewayErrorV};
use crate::ir::{
    BlockStart, BlockStartV, StopReason, StopReasonV, StreamEvent, StreamEventV, Usage,
    events_view, opt_stop_view, stop_from_gemini,
};
use crate::json::{Json, JsonV, lemma_view_items, parse_json, serde_parse, serde_text, str_or, to_json_text, view_items};
use crate::sse::{SseEvent, StreamParser};
use crate::text::{concat, owned, trim, trim_seq};

verus! {

broadcast use vstd::string::group_string_axioms;

/// What the parser remembers between events.
pub struct GeminiParserV {
    pub started: bool,
    pub text_index: Option<usize>,
    pub think_index: Option<usize>,
    pub next_index: usize,
    pub saw_tool: bool,
    pub stop_reason: Option<StopReasonV>,
    pub usage: Option<Usage>,
    pub message_stopped: bool,
}

pub open spec fn bump(n: usize) -> usize {
    vstd::wrapping::usize_specs::wrapping_add(n, 1)
}

pub open spec fn opt_seq(o: Option<usize>) -> Seq<usize> {
    match o {
        Some(i) => seq![i],
        None => Seq::empty(),
    }
}

/// The open text and thinking blocks, lowest index first.
pub open spec fn open_blocks(s: GeminiParserV) -> Seq<usize> {
    match (s.text_index, s.think_index) {
        (Some(a), Some(b)) => if a <= b {
            seq![a, b]
        } else {
            seq![b, a]
        },
        _ => opt_seq(s.text_index) + opt_seq(s.think_index),
    }
}

pub open spec fn stops(idx: Seq<usize>) -> Seq<StreamEventV> {
    idx.map_values(|i: usize| StreamEventV::ContentBlockStop { index: i })
}

/// The end of the message: the open blocks closed, then a tool-use stop when
/// a call was seen (Gemini says STOP even then), else the recorded or a clean
/// stop, with the usage; then the stop. Nothing once stopped or before the
/// start.
pub open spec fn finalize_spec(s: GeminiParserV) -> (Seq<StreamEventV>, GeminiParserV) {
    if !s.started || s.message_stopped {
        (Seq::empty(), s)
    } else {
        let stop = if s.saw_tool {
            StopReasonV::ToolUse
        } else {
            match s.stop_reason {
                Some(r) => r,
                None => StopReasonV::EndTurn,
            }
        };
        (
            stops(open_blocks(s)) + seq![
                StreamEventV::MessageDelta { stop_reason: Some(stop), usage: s.usage },
                StreamEventV::MessageStop,
            ],
            GeminiParserV {
                message_stopped: true,
                text_index: None,
                think_index: None,
                stop_reason: if s.saw_tool { s.stop_reason } else { None },
                usage: None,
                ..s
            },
        )
    }
}

/// A function call is one whole tool-use block: start, its arguments as one
/// delta, stop.
pub open spec fn function_call_spec(s: GeminiParserV, fc: JsonV) -> (Seq<StreamEventV>, GeminiParserV) {
    let index = s.next_index;
    let name = fc.str_at("name"@);
    let args = match fc.get("args"@) {
        Some(a) => a,
        None => JsonV::empty_object(),
    };
    let id = match fc.get_str("id"@) {
        Some(i) => i,
        None => surrogate_id_spec(name, args, index),
    };
    (
        seq![
            StreamEventV::ContentBlockStart { index, block: BlockStartV::ToolUse { id, name } },
            StreamEventV::ToolUseInputDelta { index, partial_json: serde_text(args) },
            StreamEventV::ContentBlockStop { index },
        ],
        GeminiParserV { saw_tool: true, next_index: bump(index), ..s },
    )
}

/// Text goes to the open text block, which the first text opens; thoughts
/// likewise to the thinking block.
pub open spec fn text_spec(s: GeminiParserV, text: Seq<char>, thought: bool) -> (
    Seq<StreamEventV>,
    GeminiParserV,
) {
    let current = if thought { s.think_index } else { s.text_index };
    match current {
        Some(i) => (
            seq![
                if thought {
                    StreamEventV::ThinkingDelta { index: i, text }
                } else {
                    StreamEventV::TextDelta { index: i, text }
                },
            ],
            s,
        ),
        None => {
            let i = s.next_index;
            let s1 = if thought {
                GeminiParserV { think_index: Some(i), next_index: bump(i), ..s }
            } else {
                GeminiParserV { text_index: Some(i), next_index: bump(i), ..s }
            };
            (
                seq![
                    StreamEventV::ContentBlockStart {
                        index: i,
                        block: if thought { BlockStartV::Thinking } else { BlockStartV::Text },
                    },
                    if thought {
                        StreamEventV::ThinkingDelta { index: i, text }
                    } else {
                        StreamEventV::TextDelta { index: i, text }
                    },
                ],
                s1,
            )
        },
    }
}

pub open spec fn part_spec(s: GeminiParserV, part: JsonV) -> (Seq<StreamEventV>, GeminiParserV) {
    match or_else(part.get("functionCall"@), part.get("function_call"@)) {
        Some(fc) => function_call_spec(s, fc),
        None => if part.get_bool("thought"@) == Some(true) {
            match part.get_str("text"@) {
                Some(t) => text_spec(s, t, true),
                None => (Seq::empty(), s),
            }
        } else {
            match part.get_str("text"@) {
                Some(t) => text_spec(s, t, false),
                None => (Seq::empty(), s),
            }
        },
    }
}

pub open spec fn parts_spec(s: GeminiParserV, parts: Seq<JsonV>) -> (Seq<StreamEventV>, GeminiParserV)
    decreases parts.len(),
{
    if parts.len() == 0 {
        (Seq::empty(), s)
    } else {
        let (e1, s1) = parts_spec(s, parts.drop_last());
        let (e2, s2) = part_spec(s1, parts.last());
        (e1 + e2, s2)
    }
}

/// The canonical events for one parsed Gemini chunk, and the state after.
pub open spec fn gemini_events(s: GeminiParserV, data: JsonV) -> (Seq<StreamEventV>, GeminiParserV) {
    match data.get("error"@) {
        Some(err) => if !(err is Null) {
            (
                Seq::empty(),
                GeminiParserV {
                    stop_reason: Some(
                        StopReasonV::Other(
                            "error: "@ + str_or(err.get_str("message"@), "stream error"@),
                        ),
                    ),
                    started: true,
                    ..s
                },
            )
        } else {
            chunk_events(s, data)
        },
        None => chunk_events(s, data),
    }
}

pub open spec fn chunk_events(s: GeminiParserV, data: JsonV) -> (Seq<StreamEventV>, GeminiParserV) {
    let start: Seq<StreamEventV> = if s.started {
        Seq::empty()
    } else {
        seq![StreamEventV::MessageStart { id: Seq::empty(), model: data.str_at("modelVersion"@) }]
    };
    let s1 = GeminiParserV {
        started: true,
        usage: match field(data, "usageMetadata"@, "usage_metadata"@) {
            Some(u) => Some(usage_from_gemini_spec(Some(u))),
            None => s.usage,
        },
        ..s
    };
    let c = first_candidate(data);
    let (body, s2) = match candidate_parts(c) {
        Some(ps) => parts_spec(s1, ps),
        None => (Seq::empty(), s1),
    };
    let finish = match c {
        Some(cand) => match or_else(cand.get("finishReason"@), cand.get("finish_reason"@)) {
            Some(JsonV::Str(f)) => Some(f),
            _ => None,
        },
        None => None,
    };
    let blocked = c is None && match field(data, "promptFeedback"@, "prompt_feedback"@) {
        Some(pf) => field(pf, "blockReason"@, "block_reason"@) is Some,
        None => false,
    };
    let s3 = match finish {
        Some(f) => GeminiParserV { stop_reason: Some(stop_from_gemini(f)), ..s2 },
        None => if blocked {
            GeminiParserV { stop_reason: Some(StopReasonV::ContentFilter), ..s2 }
        } else {
            s2
        },
    };
    (start + body, s3)
}

/// Parses Gemini SSE chunks; allocates block indices in order and ends the
/// message once, at the end of the stream.
pub struct GeminiStreamParser {
    started: bool,
    text_index: Option<usize>,
    think_index: Option<usize>,
    next_index: usize,
    saw_tool: bool,
    stop_reason: Option<StopReason>,
    usage: Option<Usage>,
    message_stopped: bool,
}

impl View for GeminiStreamParser {
    type V = GeminiParserV;

    closed spec fn view(&self) -> GeminiParserV {
        GeminiParserV {
            started: self.started,
            text_index: self.text_index,
            think_index: self.think_index,
            next_index: self.next_index,
            saw_tool: self.saw_tool,
            stop_reason: opt_stop_view(self.stop_reason),
            usage: self.usage,
            message_stopped: self.message_stopped,
        }
    }
}

fn push_event(out: &mut Vec<StreamEvent>, e: StreamEvent)
    ensures
        events_view(final(out)@) == events_view(old(out)@).push(e@),
{
    let ghost prev = out@;
    out.push(e);
    assert(events_view(out@) =~= events_view(prev).push(e@));
}

impl GeminiStreamParser {
    pub fn new() -> (r: GeminiStreamParser)
        ensures
            r@ == (GeminiParserV {
                started: false,
                text_index: None,
                think_index: None,
                next_index: 0,
                saw_tool: false,
                stop_reason: None,
                usage: None,
                message_stopped: false,
            }),
    {
        GeminiStreamParser {
            started: false,
            text_index: None,
            think_index: None,
            next_index: 0,
            saw_tool: false,
            stop_reason: None,
            usage: None,
            message_stopped: false,
        }
    }

    fn allocate(&mut self) -> (r: usize)
        ensures
            r == old(self)@.next_index,
            final(self)@ == (GeminiParserV { next_index: bump(r), ..old(self)@ }),
    {
        let i = self.next_index;
        self.next_index = i.wrapping_add(1);
        i
    }

    fn finalize(&mut self) -> (r: Vec<StreamEvent>)
        ensures
            (events_view(r@), final(self)@) == finalize_spec(old(self)@),
    {
        if !self.started || self.message_stopped {
            return Vec::new();
        }
        let ghost s0 = self@;
        self.message_stopped = true;
        let mut out: Vec<StreamEvent> = Vec::new();
        let a = self.text_index.take();
        let b = self.think_index.take();
        match (a, b) {
            (Some(x), Some(y)) => {
                let (lo, hi) = if x <= y {
                    (x, y)
                } else {
                    (y, x)
                };
                push_event(&mut out, StreamEvent::ContentBlockStop { index: lo });
                push_event(&mut out, StreamEvent::ContentBlockStop { index: hi });
            },
            (Some(x), None) => push_event(&mut out, StreamEvent::ContentBlockStop { index: x }),
            (None, Some(y)) => push_event(&mut out, StreamEvent::ContentBlockStop { index: y }),
            (None, None) => {},
        }
        assert(events_view(out@) =~= stops(open_blocks(s0)));
        let stop = if self.saw_tool {
            StopReason::ToolUse
        } else {
            match self.stop_reason.take() {
                Some(r) => r,
                None => StopReason::EndTurn,
            }
        };
        let usage = self.usage.take();
        let ghost before = events_view(out@);
        push_event(&mut out, StreamEvent::MessageDelta { stop_reason: Some(stop), usage });
        push_event(&mut out, StreamEvent::MessageStop);
        assert(events_view(out@) =~= before + seq![
            StreamEventV::MessageDelta { stop_reason: Some(stop@), usage },
            StreamEventV::MessageStop,
        ]);
        out
    }

    fn handle_function_call(&mut self, fc: &Json, out: &mut Vec<StreamEvent>)
        ensures
            events_view(final(out)@) == events_view(old(out)@) + function_call_spec(
                old(self)@,
                fc@,
            ).0,
            final(self)@ == function_call_spec(old(self)@, fc@).1,
    {
        let ghost start = events_view(out@);
        self.saw_tool = true;
        let index = self.allocate();
        let name = fc.str_at("name");
        let args = match fc.get("args") {
            Some(a) => a.clone(),
            None => Json::object(),
        };
        let id = match fc.get_str("id") {
            Some(i) => i.clone(),
            None => surrogate_id(name.as_str(), &args, index),
        };
        push_event(out, StreamEvent::ContentBlockStart { index, block: BlockStart::ToolUse { id, name } });
        push_event(out, StreamEvent::ToolUseInputDelta { index, partial_json: to_json_text(&args) });
        push_event(out, StreamEvent::ContentBlockStop { index });
        assert(events_view(out@) =~= start + function_call_spec(old(self)@, fc@).0);
    }

    fn handle_text(&mut self, text: &String, thought: bool, out: &mut Vec<StreamEvent>)
        ensures
            events_view(final(out)@) == events_view(old(out)@) + text_spec(old(self)@, text@, thought).0,
            final(self)@ == text_spec(old(self)@, text@, thought).1,
    {
        let ghost start = events_view(out@);
        let current = if thought {
            self.think_index
        } else {
            self.text_index
        };
        let index = match current {
            Some(i) => i,
            None => {
                let i = self.allocate();
                if thought {
                    self.think_index = Some(i);
                } else {
                    self.text_index = Some(i);
                }
                push_event(
                    out,
                    StreamEvent::ContentBlockStart {
                        index: i,
                        block: if thought {
                            BlockStart::Thinking
                        } else {
                            BlockStart::Text
                        },
                    },
                );
                i
            },
        };
        if thought {
            push_event(out, StreamEvent::ThinkingDelta { index, text: text.clone() });
        } else {
            push_event(out, StreamEvent::TextDelta { index, text: text.clone() });
        }
        assert(events_view(out@) =~= start + text_spec(old(self)@, text@, thought).0);
    }

    fn handle_part(&mut self, part: &Json, out: &mut Vec<StreamEvent>)
        ensures
            events_view(final(out)@) == events_view(old(out)@) + part_spec(old(self)@, part@).0,
            final(self)@ == part_spec(old(self)@, part@).1,
    {
        let fc = match part.get("functionCall") {
            Some(f) => Some(f),
            None => part.get("function_call"),
        };
        if let Some(fc) = fc {
            self.handle_function_call(fc, out);
        } else if part.get_bool("thought") == Some(true) {
            match part.get_str("text") {
                Some(t) => self.handle_text(t, true, out),
                None => {
                    assert(events_view(out@) =~= events_view(out@) + Seq::<StreamEventV>::empty());
                },
            }
        } else {
            match part.get_str("text") {
                Some(t) => self.handle_text(t, false, out),
                None => {
                    assert(events_view(out@) =~= events_view(out@) + Seq::<StreamEventV>::empty());
                },
            }
        }
    }

    /// The canonical events for one parsed Gemini chunk.
    pub fn on_event(&mut self, data: &Json) -> (r: Vec<StreamEvent>)
        ensures
            (events_view(r@), final(self)@) == gemini_events(old(self)@, data@),
    {
        if let Some(err) = data.get("error") {
            if !err.is_null() {
                let message = err.str_or("message", "stream error");
                self.stop_reason = Some(StopReason::Other(concat("error: ", message.as_str())));
                self.started = true;
                return Vec::new();
            }
        }
        let ghost s0 = self@;
        let mut out: Vec<StreamEvent> = Vec::new();
        if !self.started {
            self.started = true;
            push_event(&mut out, StreamEvent::MessageStart { id: String::new(), model: data.str_at("modelVersion") });
        }
        assert(events_view(out@) =~= (if s0.started {
            Seq::<StreamEventV>::empty()
        } else {
            seq![StreamEventV::MessageStart { id: Seq::empty(), model: data@.str_at("modelVersion"@) }]
        }));
        if let Some(u) = field_exec(data, "usageMetadata", "usage_metadata") {
            self.usage = Some(usage_from_gemini(Some(u)));
        }
        let ghost head = events_view(out@);
        let candidate = match data.get_array("candidates") {
            Some(a) => {
                proof {
                    lemma_view_items(a@);
                }
                if a.len() > 0 {
                    Some(&a[0])
                } else {
                    None
                }
            },
            None => None,
        };
        assert(opt_json(candidate) == first_candidate(data@));
        let parts = match candidate {
            Some(c) => match c.get("content") {
                Some(content) => content.get_array("parts"),
                None => None,
            },
            None => None,
        };
        if let Some(ps) = parts {
            let ghost items = view_items(ps@);
            let ghost s1 = self@;
            proof {
                lemma_view_items(ps@);
            }
            let mut i: usize = 0;
            while i < ps.len()
                invariant
                    i <= ps.len(),
                    items == view_items(ps@),
                    items.len() == ps.len(),
                    forall|k: int| 0 <= k < ps.len() ==> #[trigger] items[k] == ps@[k]@,
                    events_view(out@) == head + parts_spec(s1, items.take(i as int)).0,
                    self@ == parts_spec(s1, items.take(i as int)).1,
                decreases ps.len() - i,
            {
                assert(items.take(i + 1).drop_last() =~= items.take(i as int));
                assert(items.take(i + 1).last() == ps@[i as int]@);
                self.handle_part(&ps[i], &mut out);
                assert(events_view(out@) =~= head + parts_spec(s1, items.take(i + 1)).0);
                i = i + 1;
            }
            assert(items.take(ps.len() as int) =~= items);
        } else {
            assert(events_view(out@) =~= head + Seq::<StreamEventV>::empty());
        }
        let finish: Option<String> = match candidate {
            Some(c) => match c.get("finishReason") {
                Some(Json::Str(f)) => Some(f.clone()),
                Some(_) => None,
                None => match c.get("finish_reason") {
                    Some(Json::Str(f)) => Some(f.clone()),
                    _ => None,
                },
            },
            None => None,
        };
        match finish {
            Some(f) => {
                self.stop_reason = Some(StopReason::from_gemini(f.as_str()));
            },
            None => {
                let blocked = candidate.is_none() && match field_exec(
                    data,
                    "promptFeedback",
                    "prompt_feedback",
                ) {
                    Some(pf) => field_exec(pf, "blockReason", "block_reason").is_some(),
                    None => false,
                };
                if blocked {
                    self.stop_reason = Some(StopReason::ContentFilter);
                }
            },
        }
        out
    }
}

impl StreamParser for GeminiStreamParser {
    /// Parses one upstream chunk: blank data yields nothing, data that is no
    /// JSON is an error carrying serde_json's message.
    fn parse_event(&mut self, event: &SseEvent) -> (r: Result<Vec<StreamEvent>, GatewayError>)
        ensures
            trim_seq(event@.data).len() == 0 ==> (r matches Ok(v) && v@.len() == 0
                && final(self)@ == old(self)@),
            trim_seq(event@.data).len() != 0 ==> match serde_parse(event@.data) {
                Err(m) => (r matches Err(e) && e@ == GatewayErrorV::InvalidJsonMessage(m)
                    && final(self)@ == old(self)@),
                Ok(d) => (r matches Ok(v) && (events_view(v@), final(self)@) == gemini_events(
                    old(self)@,
                    d,
                )),
            },
    {
        let blank = trim(event.data.as_str());
        if blank.as_str().is_empty() {
            return Ok(Vec::new());
        }
        let data = match parse_json(event.data.as_str()) {
            Ok(d) => d,
            Err(m) => return Err(GatewayError::InvalidJsonMessage(m)),
        };
        Ok(self.on_event(&data))
    }

    /// Ends the message at the end of the stream.
    fn finish(&mut self) -> (r: Vec<StreamEvent>)
        ensures
            (events_view(r@), final(self)@) == finalize_spec(old(self)@),
    {
        self.finalize()
    }
}

} // verus!
