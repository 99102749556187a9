//! Parsing an OpenAI Responses SSE stream into canonical stream events.
use vstd::prelude::*;
use crate::codec::anthropic::blocks::opt_json;
use crate::codec::anthropic::render::u64_or;
use crate::codec::anthropic::stream::event_kind;
use crate::codec::common::{opt_get, opt_str_at, str_in};
use crate::codec::openai_responses::parse::{usage_from_responses, usage_from_responses_spec};
use crate::errors::{GatewayError, GatewayErrorV};
use crate::index_set::{IndexSet, inserted, removed, strictly_sorted};
use crate::ir::{
    BlockStart, BlockStartV, StopReason, StopReasonV, StreamEvent, StreamEventV, Usage,
    events_view, opt_stop_view,
};
use crate::json::{Json, JsonV, parse_json, serde_parse, str_or};
use crate::sse::{SseEvent, StreamParser};
use crate::text::{concat, owned, str_eq, trim, trim_seq};

verus! {

broadcast use vstd::string::group_string_axioms;

/// What the parser remembers between events.
pub struct ResponsesParserV {
    pub started: bool,
    pub opened: Seq<usize>,
    pub saw_tool: bool,
    pub stop_reason: Option<StopReasonV>,
    pub usage: Option<Usage>,
    pub message_stopped: bool,
}

/// The block index an event names, 0 when it names none.
pub open spec fn output_index_spec(data: JsonV) -> usize {
    u64_or(data.get_u64("output_index"@), 0) as usize
}

pub open spec fn delta_str_spec(data: JsonV) -> Seq<char> {
    data.str_at("delta"@)
}

pub open spec fn stops(idx: Seq<usize>) -> Seq<StreamEventV> {
    idx.map_values(|i: usize| StreamEventV::ContentBlockStop { index: i })
}

/// The end of the message: every open block closed in ascending order, then
/// the stop reason (a recorded one, else a tool call or a clean end) with the
/// usage, then the stop. Nothing once stopped, or before the start.
pub open spec fn finalize_spec(s: ResponsesParserV) -> (Seq<StreamEventV>, ResponsesParserV) {
    if !s.started || s.message_stopped {
        (Seq::empty(), s)
    } else {
        let stop = match s.stop_reason {
            Some(r) => r,
            None => if s.saw_tool {
                StopReasonV::ToolUse
            } else {
                StopReasonV::EndTurn
            },
        };
        (
            stops(s.opened) + seq![
                StreamEventV::MessageDelta { stop_reason: Some(stop), usage: s.usage },
                StreamEventV::MessageStop,
            ],
            ResponsesParserV {
                message_stopped: true,
                opened: Seq::empty(),
                stop_reason: None,
                usage: None,
                ..s
            },
        )
    }
}

pub open spec fn item_added_spec(s: ResponsesParserV, data: JsonV) -> (
    Seq<StreamEventV>,
    ResponsesParserV,
) {
    let oi = output_index_spec(data);
    let item = data.get("item"@);
    let t = match item {
        Some(i) => i.get_str("type"@),
        None => None,
    };
    if t == Some("function_call"@) {
        (
            seq![
                StreamEventV::ContentBlockStart {
                    index: oi,
                    block: BlockStartV::ToolUse {
                        id: opt_str_at(item, "call_id"@),
                        name: opt_str_at(item, "name"@),
                    },
                },
            ],
            ResponsesParserV { saw_tool: true, opened: inserted(s.opened, oi), ..s },
        )
    } else if t == Some("reasoning"@) {
        (
            seq![StreamEventV::ContentBlockStart { index: oi, block: BlockStartV::Thinking }],
            ResponsesParserV { opened: inserted(s.opened, oi), ..s },
        )
    } else {
        (Seq::empty(), s)
    }
}

/// A text part opens a text block, unless that block is open already.
pub open spec fn part_added_spec(s: ResponsesParserV, data: JsonV) -> (
    Seq<StreamEventV>,
    ResponsesParserV,
) {
    let oi = output_index_spec(data);
    let is_text = opt_get(data.get("part"@), "type"@) == Some(JsonV::Str("output_text"@));
    if is_text && !s.opened.contains(oi) {
        (
            seq![StreamEventV::ContentBlockStart { index: oi, block: BlockStartV::Text }],
            ResponsesParserV { opened: inserted(s.opened, oi), ..s },
        )
    } else {
        (Seq::empty(), s)
    }
}

pub open spec fn item_done_spec(s: ResponsesParserV, data: JsonV) -> (
    Seq<StreamEventV>,
    ResponsesParserV,
) {
    let oi = output_index_spec(data);
    if s.opened.contains(oi) {
        (
            seq![StreamEventV::ContentBlockStop { index: oi }],
            ResponsesParserV { opened: removed(s.opened, oi), ..s },
        )
    } else {
        (Seq::empty(), s)
    }
}

/// The stop reason of a streamed `response.failed`: an error carrying the
/// response's error message, or "response failed" when it has none, as a
/// failed response body decodes.
pub open spec fn failed_stop_spec(data: JsonV) -> StopReasonV {
    StopReasonV::Other(
        "error: "@ + str_or(
            match opt_get(opt_get(data.get("response"@), "error"@), "message"@) {
                Some(m) => m.as_str(),
                None => None,
            },
            "response failed"@,
        ),
    )
}

/// The end of the response: a token-limit stop when it is incomplete, an
/// error stop when it failed, the stop recorded so far otherwise; then the
/// usage it reports, and the message ends.
pub open spec fn completion_spec(s: ResponsesParserV, t: Seq<char>, data: JsonV) -> (
    Seq<StreamEventV>,
    ResponsesParserV,
) {
    let s1 = ResponsesParserV {
        stop_reason: if t == "response.incomplete"@ {
            Some(StopReasonV::MaxTokens)
        } else if t == "response.failed"@ {
            Some(failed_stop_spec(data))
        } else {
            s.stop_reason
        },
        usage: Some(usage_from_responses_spec(opt_get(data.get("response"@), "usage"@))),
        ..s
    };
    finalize_spec(s1)
}

/// The canonical events for one parsed Responses event, and the parser's
/// state afterwards.
pub open spec fn responses_events(s: ResponsesParserV, data: JsonV) -> (
    Seq<StreamEventV>,
    ResponsesParserV,
) {
    let t = data.str_at("type"@);
    let oi = output_index_spec(data);
    if t == "response.created"@ {
        let resp = data.get("response"@);
        (
            seq![
                StreamEventV::MessageStart {
                    id: opt_str_at(resp, "id"@),
                    model: opt_str_at(resp, "model"@),
                },
            ],
            ResponsesParserV { started: true, ..s },
        )
    } else if t == "response.output_item.added"@ {
        item_added_spec(s, data)
    } else if t == "response.content_part.added"@ {
        part_added_spec(s, data)
    } else if t == "response.output_text.delta"@ {
        (seq![StreamEventV::TextDelta { index: oi, text: delta_str_spec(data) }], s)
    } else if t == "response.reasoning_summary_text.delta"@ || t
        == "response.reasoning_text.delta"@ {
        (seq![StreamEventV::ThinkingDelta { index: oi, text: delta_str_spec(data) }], s)
    } else if t == "response.function_call_arguments.delta"@ {
        (seq![StreamEventV::ToolUseInputDelta { index: oi, partial_json: delta_str_spec(data) }], s)
    } else if t == "response.output_item.done"@ {
        item_done_spec(s, data)
    } else if t == "response.completed"@ || t == "response.incomplete"@ || t
        == "response.failed"@ {
        completion_spec(s, t, data)
    } else {
        (Seq::empty(), s)
    }
}

fn failed_stop(data: &Json) -> (r: StopReason)
    ensures
        r@ == failed_stop_spec(data@),
{
    let message: String = match data.get("response") {
        Some(resp) => match resp.get("error") {
            Some(e) => match e.get_str("message") {
                Some(m) => m.clone(),
                None => owned("response failed"),
            },
            None => owned("response failed"),
        },
        None => owned("response failed"),
    };
    StopReason::Other(concat("error: ", message.as_str()))
}

/// Parses OpenAI Responses SSE events; closes the blocks it opened and ends
/// the message once, at completion or at the end of the stream.
pub struct ResponsesStreamParser {
    started: bool,
    opened: IndexSet,
    saw_tool: bool,
    stop_reason: Option<StopReason>,
    usage: Option<Usage>,
    message_stopped: bool,
}

impl View for ResponsesStreamParser {
    type V = ResponsesParserV;

    closed spec fn view(&self) -> ResponsesParserV {
        ResponsesParserV {
            started: self.started,
            opened: self.opened@,
            saw_tool: self.saw_tool,
            stop_reason: opt_stop_view(self.stop_reason),
            usage: self.usage,
            message_stopped: self.message_stopped,
        }
    }
}

fn output_index(data: &Json) -> (r: usize)
    ensures
        r == output_index_spec(data@),
{
    let n: u64 = match data.get_u64("output_index") {
        Some(n) => n,
        None => 0,
    };
    n as usize
}

fn one(e: StreamEvent) -> (r: Vec<StreamEvent>)
    ensures
        events_view(r@) == seq![e@],
{
    let v = vec![e];
    assert(events_view(v@) =~= seq![e@]);
    v
}

fn type_of(item: Option<&Json>, t: &str) -> (r: bool)
    ensures
        r == (match opt_json(item) {
            Some(i) => i.get_str("type"@),
            None => None,
        } == Some(t@)),
{
    match item {
        Some(i) => match i.get_str("type") {
            Some(s) => str_eq(s.as_str(), t),
            None => false,
        },
        None => false,
    }
}

impl ResponsesStreamParser {
    pub fn new() -> (r: ResponsesStreamParser)
        ensures
            r@ == (ResponsesParserV {
                started: false,
                opened: Seq::empty(),
                saw_tool: false,
                stop_reason: None,
                usage: None,
                message_stopped: false,
            }),
    {
        ResponsesStreamParser {
            started: false,
            opened: IndexSet::new(),
            saw_tool: false,
            stop_reason: None,
            usage: None,
            message_stopped: false,
        }
    }

    fn finalize(&mut self) -> (r: Vec<StreamEvent>)
        ensures
            (events_view(r@), final(self)@) == finalize_spec(old(self)@),
    {
        if !self.started || self.message_stopped {
            return Vec::new();
        }
        self.message_stopped = true;
        let open = self.opened.drain();
        let mut out: Vec<StreamEvent> = Vec::new();
        let mut i: usize = 0;
        while i < open.len()
            invariant
                i <= open.len(),
                events_view(out@) == stops(open@.take(i as int)),
            decreases open.len() - i,
        {
            let ghost prev = out@;
            out.push(StreamEvent::ContentBlockStop { index: open[i] });
            assert(events_view(out@) =~= events_view(prev).push(
                StreamEventV::ContentBlockStop { index: open@[i as int] },
            ));
            assert(stops(open@.take(i + 1)) =~= stops(open@.take(i as int)).push(
                StreamEventV::ContentBlockStop { index: open@[i as int] },
            ));
            i = i + 1;
        }
        assert(open@.take(open.len() as int) =~= open@);
        let stop = match self.stop_reason.take() {
            Some(r) => r,
            None => if self.saw_tool {
                StopReason::ToolUse
            } else {
                StopReason::EndTurn
            },
        };
        let usage = self.usage.take();
        let ghost before = events_view(out@);
        out.push(StreamEvent::MessageDelta { stop_reason: Some(stop), usage });
        out.push(StreamEvent::MessageStop);
        assert(events_view(out@) =~= before + seq![
            StreamEventV::MessageDelta { stop_reason: Some(stop@), usage },
            StreamEventV::MessageStop,
        ]);
        out
    }

    fn item_added(&mut self, data: &Json) -> (r: Vec<StreamEvent>)
        ensures
            (events_view(r@), final(self)@) == item_added_spec(old(self)@, data@),
    {
        let oi = output_index(data);
        let item = data.get("item");
        if type_of(item, "function_call") {
            self.saw_tool = true;
            self.opened.insert(oi);
            one(
                StreamEvent::ContentBlockStart {
                    index: oi,
                    block: BlockStart::ToolUse {
                        id: str_in(item, "call_id"),
                        name: str_in(item, "name"),
                    },
                },
            )
        } else if type_of(item, "reasoning") {
            self.opened.insert(oi);
            one(StreamEvent::ContentBlockStart { index: oi, block: BlockStart::Thinking })
        } else {
            Vec::new()
        }
    }

    fn part_added(&mut self, data: &Json) -> (r: Vec<StreamEvent>)
        ensures
            (events_view(r@), final(self)@) == part_added_spec(old(self)@, data@),
    {
        let oi = output_index(data);
        let is_text = match data.get("part") {
            Some(p) => match p.get("type") {
                Some(Json::Str(s)) => str_eq(s.as_str(), "output_text"),
                _ => false,
            },
            None => false,
        };
        if is_text && self.opened.insert(oi) {
            one(StreamEvent::ContentBlockStart { index: oi, block: BlockStart::Text })
        } else {
            Vec::new()
        }
    }

    fn item_done(&mut self, data: &Json) -> (r: Vec<StreamEvent>)
        ensures
            (events_view(r@), final(self)@) == item_done_spec(old(self)@, data@),
    {
        let oi = output_index(data);
        if self.opened.remove(oi) {
            one(StreamEvent::ContentBlockStop { index: oi })
        } else {
            Vec::new()
        }
    }

    fn delta_str(data: &Json) -> (r: String)
        ensures
            r@ == delta_str_spec(data@),
    {
        data.str_at("delta")
    }

    /// The canonical events for one parsed Responses event.
    pub fn on_event(&mut self, data: &Json) -> (r: Vec<StreamEvent>)
        ensures
            (events_view(r@), final(self)@) == responses_events(old(self)@, data@),
    {
        let t = data.str_at("type");
        let t = t.as_str();
        let oi = output_index(data);
        if str_eq(t, "response.created") {
            self.started = true;
            let resp = data.get("response");
            one(StreamEvent::MessageStart { id: str_in(resp, "id"), model: str_in(resp, "model") })
        } else if str_eq(t, "response.output_item.added") {
            self.item_added(data)
        } else if str_eq(t, "response.content_part.added") {
            self.part_added(data)
        } else if str_eq(t, "response.output_text.delta") {
            one(StreamEvent::TextDelta { index: oi, text: Self::delta_str(data) })
        } else if str_eq(t, "response.reasoning_summary_text.delta") || str_eq(
            t,
            "response.reasoning_text.delta",
        ) {
            one(StreamEvent::ThinkingDelta { index: oi, text: Self::delta_str(data) })
        } else if str_eq(t, "response.function_call_arguments.delta") {
            one(StreamEvent::ToolUseInputDelta { index: oi, partial_json: Self::delta_str(data) })
        } else if str_eq(t, "response.output_item.done") {
            self.item_done(data)
        } else if str_eq(t, "response.completed") || str_eq(t, "response.incomplete") || str_eq(
            t,
            "response.failed",
        ) {
            if str_eq(t, "response.incomplete") {
                self.stop_reason = Some(StopReason::MaxTokens);
            } else if str_eq(t, "response.failed") {
                self.stop_reason = Some(failed_stop(data));
            }
            let usage_src = match data.get("response") {
                Some(r) => r.get("usage"),
                None => None,
            };
            self.usage = Some(usage_from_responses(usage_src));
            self.finalize()
        } else {
            Vec::new()
        }
    }
}

impl StreamParser for ResponsesStreamParser {
    /// Parses one upstream event: blank data yields nothing, data that is no
    /// JSON is an error carrying serde_json's message.
    fn parse_event(&mut self, event: &SseEvent) -> (r: Result<Vec<StreamEvent>, GatewayError>)
        ensures
            trim_seq(event@.data).len() == 0 ==> (r matches Ok(v) && v@.len() == 0
                && final(self)@ == old(self)@),
            trim_seq(event@.data).len() != 0 ==> match serde_parse(event@.data) {
                Err(m) => (r matches Err(e) && e@ == GatewayErrorV::InvalidJsonMessage(m)
                    && final(self)@ == old(self)@),
                Ok(d) => (r matches Ok(v) && (events_view(v@), final(self)@) == responses_events(
                    old(self)@,
                    d,
                )),
            },
    {
        let blank = trim(event.data.as_str());
        if blank.as_str().is_empty() {
            return Ok(Vec::new());
        }
        let data = match parse_json(event.data.as_str()) {
            Ok(d) => d,
            Err(m) => return Err(GatewayError::InvalidJsonMessage(m)),
        };
        Ok(self.on_event(&data))
    }

    /// Ends the message if the stream stopped without a completion event.
    fn finish(&mut self) -> (r: Vec<StreamEvent>)
        ensures
            (events_view(r@), final(self)@) == finalize_spec(old(self)@),
    {
        self.finalize()
    }
}

} // verus!
