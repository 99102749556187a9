//! Parsing an OpenAI Chat Completions SSE stream into canonical events.
use vstd::prelude::*;
use crate::codec::anthropic::blocks::opt_json;
use crate::codec::anthropic::stream::event_kind;
use crate::codec::common::{opt_get, opt_str_at, str_in};
use crate::codec::openai_chat::parse::{usage_from_openai, usage_from_openai_spec};
use crate::errors::{GatewayError, GatewayErrorV};
use crate::index_set::{IndexSet, inserted, inserted_all, strictly_sorted};
use crate::ir::{
    BlockStart, BlockStartV, StopReason, StopReasonV, StreamEvent, StreamEventV, Usage,
    events_view, opt_stop_view, stop_from_openai,
};
use crate::json::{Json, JsonV, lemma_view_items, parse_json, serde_parse, str_or, view_items};
use crate::sse::{SseEvent, StreamParser};
use crate::text::{concat, str_eq, trim, trim_seq};

verus! {

broadcast use vstd::string::group_string_axioms;

/// The block index a tool call's position `j` was given, if any.
pub open spec fn slot_of(slots: Seq<(u64, usize)>, j: u64) -> Option<usize>
    decreases slots.len(),
{
    if slots.len() == 0 {
        None
    } else if slots.last().0 == j {
        Some(slots.last().1)
    } else {
        slot_of(slots.drop_last(), j)
    }
}

pub open spec fn slot_values(slots: Seq<(u64, usize)>) -> Seq<usize> {
    slots.map_values(|p: (u64, usize)| p.1)
}

/// What the parser remembers between chunks.
pub struct ChatParserV {
    pub started: bool,
    pub text_index: Option<usize>,
    pub think_index: Option<usize>,
    pub tool_slots: Seq<(u64, usize)>,
    pub next_index: usize,
    pub stop_reason: Option<StopReasonV>,
    pub usage: Option<Usage>,
    pub blocks_closed: bool,
    pub delta_emitted: bool,
    pub message_stopped: bool,
}

pub open spec fn bump(n: usize) -> usize {
    vstd::wrapping::usize_specs::wrapping_add(n, 1)
}

pub open spec fn opt_seq(o: Option<usize>) -> Seq<usize> {
    match o {
        Some(i) => seq![i],
        None => Seq::empty(),
    }
}

/// Every open block index, ascending and without repeats.
pub open spec fn open_indices_spec(s: ChatParserV) -> Seq<usize> {
    inserted_all(Seq::empty(), opt_seq(s.text_index) + opt_seq(s.think_index) + slot_values(s.tool_slots))
}

pub open spec fn stops(idx: Seq<usize>) -> Seq<StreamEventV> {
    idx.map_values(|i: usize| StreamEventV::ContentBlockStop { index: i })
}

/// The end of the message, each part once: the open blocks closed, the stop
/// reason with the usage, the stop. Nothing before the start.
pub open spec fn finalize_spec(s: ChatParserV) -> (Seq<StreamEventV>, ChatParserV) {
    if !s.started {
        (Seq::empty(), s)
    } else {
        let closes = if s.blocks_closed { Seq::empty() } else { stops(open_indices_spec(s)) };
        let delta = if s.delta_emitted {
            Seq::empty()
        } else {
            seq![StreamEventV::MessageDelta { stop_reason: s.stop_reason, usage: s.usage }]
        };
        let stop = if s.message_stopped { Seq::empty() } else { seq![StreamEventV::MessageStop] };
        (
            closes + delta + stop,
            ChatParserV {
                blocks_closed: true,
                delta_emitted: true,
                message_stopped: true,
                stop_reason: if s.delta_emitted { s.stop_reason } else { None },
                usage: if s.delta_emitted { s.usage } else { None },
                ..s
            },
        )
    }
}

/// Non-empty text goes to the text block (opened by the first text), or
/// reasoning to the thinking block.
pub open spec fn text_spec(s: ChatParserV, text: Option<Seq<char>>, thought: bool) -> (
    Seq<StreamEventV>,
    ChatParserV,
) {
    match text {
        Some(t) => if t.len() == 0 {
            (Seq::empty(), s)
        } else {
            let current = if thought { s.think_index } else { s.text_index };
            let delta = |i: usize| if thought {
                StreamEventV::ThinkingDelta { index: i, text: t }
            } else {
                StreamEventV::TextDelta { index: i, text: t }
            };
            match current {
                Some(i) => (seq![delta(i)], s),
                None => {
                    let i = s.next_index;
                    (
                        seq![
                            StreamEventV::ContentBlockStart {
                                index: i,
                                block: if thought { BlockStartV::Thinking } else { BlockStartV::Text },
                            },
                            delta(i),
                        ],
                        if thought {
                            ChatParserV { think_index: Some(i), next_index: bump(i), ..s }
                        } else {
                            ChatParserV { text_index: Some(i), next_index: bump(i), ..s }
                        },
                    )
                },
            }
        },
        None => (Seq::empty(), s),
    }
}

pub open spec fn tool_position(tc: JsonV) -> u64 {
    match tc.get_u64("index"@) {
        Some(j) => j,
        None => 0,
    }
}

/// One tool-call delta: the call's block (opened on its first delta), then
/// its non-empty argument text.
pub open spec fn tool_call_spec(s: ChatParserV, tc: JsonV) -> (Seq<StreamEventV>, ChatParserV) {
    let j = tool_position(tc);
    let func = tc.get("function"@);
    let (open, s1, index) = match slot_of(s.tool_slots, j) {
        Some(i) => (Seq::<StreamEventV>::empty(), s, i),
        None => {
            let i = s.next_index;
            (
                seq![
                    StreamEventV::ContentBlockStart {
                        index: i,
                        block: BlockStartV::ToolUse {
                            id: tc.str_at("id"@),
                            name: opt_str_at(func, "name"@),
                        },
                    },
                ],
                ChatParserV { tool_slots: s.tool_slots.push((j, i)), next_index: bump(i), ..s },
                i,
            )
        },
    };
    let args: Seq<StreamEventV> = match opt_get(func, "arguments"@) {
        Some(JsonV::Str(a)) => if a.len() > 0 {
            seq![StreamEventV::ToolUseInputDelta { index, partial_json: a }]
        } else {
            Seq::empty()
        },
        _ => Seq::empty(),
    };
    (open + args, s1)
}

pub open spec fn tool_calls_spec(s: ChatParserV, tcs: Seq<JsonV>) -> (Seq<StreamEventV>, ChatParserV)
    decreases tcs.len(),
{
    if tcs.len() == 0 {
        (Seq::empty(), s)
    } else {
        let (e1, s1) = tool_calls_spec(s, tcs.drop_last());
        let (e2, s2) = tool_call_spec(s1, tcs.last());
        (e1 + e2, s2)
    }
}

pub open spec fn opt_str(v: Option<JsonV>) -> Option<Seq<char>> {
    match v {
        Some(JsonV::Str(t)) => Some(t),
        _ => None,
    }
}

/// One choice of a chunk: text, then reasoning, then tool calls, then a
/// finish reason if it has one.
pub open spec fn choice_spec(s: ChatParserV, choice: JsonV) -> (Seq<StreamEventV>, ChatParserV) {
    let delta = choice.get("delta"@);
    let (e1, s1) = text_spec(s, opt_str(opt_get(delta, "content"@)), false);
    let (e2, s2) = text_spec(s1, opt_str(opt_get(delta, "reasoning_content"@)), true);
    let (e3, s3) = match opt_get(delta, "tool_calls"@) {
        Some(JsonV::Array(tcs)) => tool_calls_spec(s2, tcs),
        _ => (Seq::empty(), s2),
    };
    let s4 = match choice.get_str("finish_reason"@) {
        Some(fr) => ChatParserV { stop_reason: Some(stop_from_openai(fr)), ..s3 },
        None => s3,
    };
    (e1 + e2 + e3, s4)
}

pub open spec fn choices_spec(s: ChatParserV, cs: Seq<JsonV>) -> (Seq<StreamEventV>, ChatParserV)
    decreases cs.len(),
{
    if cs.len() == 0 {
        (Seq::empty(), s)
    } else {
        let (e1, s1) = choices_spec(s, cs.drop_last());
        let (e2, s2) = choice_spec(s1, cs.last());
        (e1 + e2, s2)
    }
}

/// The canonical events for one parsed chunk, and the state after: usage when
/// the chunk reports some, the message start on the first chunk, then an
/// error (which becomes the stop reason) or the choices.
pub open spec fn chat_events(s: ChatParserV, data: JsonV) -> (Seq<StreamEventV>, ChatParserV) {
    let s1 = match data.get("usage"@) {
        Some(u) => if !(u is Null) {
            ChatParserV { usage: Some(usage_from_openai_spec(Some(u))), ..s }
        } else {
            s
        },
        None => s,
    };
    let start: Seq<StreamEventV> = if s1.started {
        Seq::empty()
    } else {
        seq![StreamEventV::MessageStart { id: data.str_at("id"@), model: data.str_at("model"@) }]
    };
    let s2 = ChatParserV { started: true, ..s1 };
    match data.get("error"@) {
        Some(err) => (
            start,
            ChatParserV {
                stop_reason: Some(
                    StopReasonV::Other("error: "@ + str_or(err.get_str("message"@), "stream error"@)),
                ),
                ..s2
            },
        ),
        None => match data.get_array("choices"@) {
            Some(cs) => {
                let (e, s3) = choices_spec(s2, cs);
                (start + e, s3)
            },
            None => (start, s2),
        },
    }
}

/// Parses OpenAI Chat Completions SSE chunks. Block indices are allocated in
/// order; `[DONE]` or the end of the stream ends the message, each closing
/// part once.
pub struct OpenAiChatStreamParser {
    started: bool,
    text_index: Option<usize>,
    think_index: Option<usize>,
    tool_slots: Vec<(u64, usize)>,
    next_index: usize,
    stop_reason: Option<StopReason>,
    usage: Option<Usage>,
    blocks_closed: bool,
    delta_emitted: bool,
    message_stopped: bool,
}

impl View for OpenAiChatStreamParser {
    type V = ChatParserV;

    closed spec fn view(&self) -> ChatParserV {
        ChatParserV {
            started: self.started,
            text_index: self.text_index,
            think_index: self.think_index,
            tool_slots: self.tool_slots@,
            next_index: self.next_index,
            stop_reason: opt_stop_view(self.stop_reason),
            usage: self.usage,
            blocks_closed: self.blocks_closed,
            delta_emitted: self.delta_emitted,
            message_stopped: self.message_stopped,
        }
    }
}

fn push_event(out: &mut Vec<StreamEvent>, e: StreamEvent)
    ensures
        events_view(final(out)@) == events_view(old(out)@).push(e@),
{
    let ghost prev = out@;
    out.push(e);
    assert(events_view(out@) =~= events_view(prev).push(e@));
}

impl OpenAiChatStreamParser {
    pub fn new() -> (r: OpenAiChatStreamParser)
        ensures
            r@ == (ChatParserV {
                started: false,
                text_index: None,
                think_index: None,
                tool_slots: Seq::empty(),
                next_index: 0,
                stop_reason: None,
                usage: None,
                blocks_closed: false,
                delta_emitted: false,
                message_stopped: false,
            }),
    {
        OpenAiChatStreamParser {
            started: false,
            text_index: None,
            think_index: None,
            tool_slots: Vec::new(),
            next_index: 0,
            stop_reason: None,
            usage: None,
            blocks_closed: false,
            delta_emitted: false,
            message_stopped: false,
        }
    }

    fn allocate(&mut self) -> (r: usize)
        ensures
            r == old(self)@.next_index,
            final(self)@ == (ChatParserV { next_index: bump(r), ..old(self)@ }),
    {
        let i = self.next_index;
        self.next_index = i.wrapping_add(1);
        i
    }

    /// The open block indices, ascending and without repeats.
    pub fn open_indices(&self) -> (r: Vec<usize>)
        ensures
            r@ == open_indices_spec(self@),
            strictly_sorted(r@),
    {
        let mut set = IndexSet::new();
        let mut all: Vec<usize> = Vec::new();
        if let Some(i) = self.text_index {
            all.push(i);
        }
        if let Some(i) = self.think_index {
            all.push(i);
        }
        let ghost head = all@;
        let mut k: usize = 0;
        while k < self.tool_slots.len()
            invariant
                k <= self.tool_slots.len(),
                all@ == head + slot_values(self.tool_slots@.take(k as int)),
            decreases self.tool_slots.len() - k,
        {
            all.push(self.tool_slots[k].1);
            assert(slot_values(self.tool_slots@.take(k + 1)) =~= slot_values(
                self.tool_slots@.take(k as int),
            ).push(self.tool_slots@[k as int].1));
            k = k + 1;
        }
        assert(self.tool_slots@.take(self.tool_slots.len() as int) =~= self.tool_slots@);
        assert(all@ =~= opt_seq(self.text_index) + opt_seq(self.think_index) + slot_values(
            self.tool_slots@,
        ));
        let mut n: usize = 0;
        while n < all.len()
            invariant
                n <= all.len(),
                set@ == inserted_all(Seq::empty(), all@.take(n as int)),
            decreases all.len() - n,
        {
            assert(all@.take(n + 1).drop_last() =~= all@.take(n as int));
            set.insert(all[n]);
            n = n + 1;
        }
        assert(all@.take(all.len() as int) =~= all@);
        set.drain()
    }

    fn finalize(&mut self) -> (r: Vec<StreamEvent>)
        ensures
            (events_view(r@), final(self)@) == finalize_spec(old(self)@),
    {
        if !self.started {
            return Vec::new();
        }
        let ghost s0 = self@;
        let mut out: Vec<StreamEvent> = Vec::new();
        if !self.blocks_closed {
            self.blocks_closed = true;
            let open = self.open_indices();
            let mut i: usize = 0;
            while i < open.len()
                invariant
                    i <= open.len(),
                    events_view(out@) == stops(open@.take(i as int)),
                decreases open.len() - i,
            {
                push_event(&mut out, StreamEvent::ContentBlockStop { index: open[i] });
                assert(stops(open@.take(i + 1)) =~= stops(open@.take(i as int)).push(
                    StreamEventV::ContentBlockStop { index: open@[i as int] },
                ));
                i = i + 1;
            }
            assert(open@.take(open.len() as int) =~= open@);
        }
        assert(events_view(out@) =~= (if s0.blocks_closed {
            Seq::<StreamEventV>::empty()
        } else {
            stops(open_indices_spec(s0))
        }));
        let ghost a = events_view(out@);
        if !self.delta_emitted {
            self.delta_emitted = true;
            let stop_reason = self.stop_reason.take();
            let usage = self.usage.take();
            push_event(&mut out, StreamEvent::MessageDelta { stop_reason, usage });
        }
        let ghost b = events_view(out@);
        if !self.message_stopped {
            self.message_stopped = true;
            push_event(&mut out, StreamEvent::MessageStop);
        }
        assert(events_view(out@) =~= finalize_spec(s0).0);
        out
    }

    fn slot(&self, j: u64) -> (r: Option<usize>)
        ensures
            r == slot_of(self@.tool_slots, j),
    {
        let mut k: usize = self.tool_slots.len();
        assert(self.tool_slots@.take(k as int) =~= self.tool_slots@);
        while k > 0
            invariant
                k <= self.tool_slots.len(),
                slot_of(self.tool_slots@, j) == slot_of(self.tool_slots@.take(k as int), j),
            decreases k,
        {
            assert(self.tool_slots@.take(k as int).drop_last() =~= self.tool_slots@.take(k - 1));
            if self.tool_slots[k - 1].0 == j {
                return Some(self.tool_slots[k - 1].1);
            }
            k = k - 1;
        }
        assert(self.tool_slots@.take(0) =~= Seq::<(u64, usize)>::empty());
        None
    }

    fn handle_text(&mut self, text: Option<&Json>, thought: bool, out: &mut Vec<StreamEvent>)
        ensures
            events_view(final(out)@) == events_view(old(out)@) + text_spec(
                old(self)@,
                opt_str(opt_json(text)),
                thought,
            ).0,
            final(self)@ == text_spec(old(self)@, opt_str(opt_json(text)), thought).1,
    {
        let ghost start = events_view(out@);
        let t = match text {
            Some(Json::Str(t)) => t,
            _ => {
                assert(events_view(out@) =~= start + Seq::<StreamEventV>::empty());
                return;
            },
        };
        if t.as_str().is_empty() {
            assert(events_view(out@) =~= start + Seq::<StreamEventV>::empty());
            return;
        }
        let current = if thought {
            self.think_index
        } else {
            self.text_index
        };
        let index = match current {
            Some(i) => i,
            None => {
                let i = self.allocate();
                if thought {
                    self.think_index = Some(i);
                } else {
                    self.text_index = Some(i);
                }
                push_event(
                    out,
                    StreamEvent::ContentBlockStart {
                        index: i,
                        block: if thought {
                            BlockStart::Thinking
                        } else {
                            BlockStart::Text
                        },
                    },
                );
                i
            },
        };
        if thought {
            push_event(out, StreamEvent::ThinkingDelta { index, text: t.clone() });
        } else {
            push_event(out, StreamEvent::TextDelta { index, text: t.clone() });
        }
        assert(events_view(out@) =~= start + text_spec(old(self)@, opt_str(opt_json(text)), thought).0);
    }

    fn tool_index_for(&mut self, tc: &Json, out: &mut Vec<StreamEvent>) -> (r: usize)
        ensures
            ({
                let j = tool_position(tc@);
                match slot_of(old(self)@.tool_slots, j) {
                    Some(i) => r == i && final(self)@ == old(self)@ && events_view(final(out)@)
                        == events_view(old(out)@),
                    None => {
                        let i = old(self)@.next_index;
                        &&& r == i
                        &&& final(self)@ == (ChatParserV {
                            tool_slots: old(self)@.tool_slots.push((j, i)),
                            next_index: bump(i),
                            ..old(self)@
                        })
                        &&& events_view(final(out)@) == events_view(old(out)@).push(
                            StreamEventV::ContentBlockStart {
                                index: i,
                                block: BlockStartV::ToolUse {
                                    id: tc@.str_at("id"@),
                                    name: opt_str_at(tc@.get("function"@), "name"@),
                                },
                            },
                        )
                    },
                }
            }),
    {
        let j: u64 = match tc.get_u64("index") {
            Some(j) => j,
            None => 0,
        };
        match self.slot(j) {
            Some(i) => i,
            None => {
                let i = self.allocate();
                self.tool_slots.push((j, i));
                push_event(
                    out,
                    StreamEvent::ContentBlockStart {
                        index: i,
                        block: BlockStart::ToolUse {
                            id: tc.str_at("id"),
                            name: str_in(tc.get("function"), "name"),
                        },
                    },
                );
                i
            },
        }
    }

    fn handle_tool_calls(&mut self, tcs: &Vec<Json>, out: &mut Vec<StreamEvent>)
        ensures
            events_view(final(out)@) == events_view(old(out)@) + tool_calls_spec(
                old(self)@,
                view_items(tcs@),
            ).0,
            final(self)@ == tool_calls_spec(old(self)@, view_items(tcs@)).1,
    {
        let ghost items = view_items(tcs@);
        let ghost s0 = self@;
        let ghost start = events_view(out@);
        proof {
            lemma_view_items(tcs@);
        }
        let mut i: usize = 0;
        while i < tcs.len()
            invariant
                i <= tcs.len(),
                items == view_items(tcs@),
                items.len() == tcs.len(),
                forall|k: int| 0 <= k < tcs.len() ==> #[trigger] items[k] == tcs@[k]@,
                events_view(out@) == start + tool_calls_spec(s0, items.take(i as int)).0,
                self@ == tool_calls_spec(s0, items.take(i as int)).1,
            decreases tcs.len() - i,
        {
            assert(items.take(i + 1).drop_last() =~= items.take(i as int));
            assert(items.take(i + 1).last() == tcs@[i as int]@);
            let ghost before = events_view(out@);
            let tc = &tcs[i];
            let index = self.tool_index_for(tc, out);
            let args = match tc.get("function") {
                Some(f) => f.get("arguments"),
                None => None,
            };
            if let Some(Json::Str(a)) = args {
                if !a.as_str().is_empty() {
                    push_event(out, StreamEvent::ToolUseInputDelta { index, partial_json: a.clone() });
                }
            }
            assert(events_view(out@) =~= before + tool_call_spec(
                tool_calls_spec(s0, items.take(i as int)).1,
                tcs@[i as int]@,
            ).0);
            assert(events_view(out@) =~= start + tool_calls_spec(s0, items.take(i + 1)).0);
            i = i + 1;
        }
        assert(items.take(tcs.len() as int) =~= items);
    }

    fn handle_choice(&mut self, choice: &Json, out: &mut Vec<StreamEvent>)
        ensures
            events_view(final(out)@) == events_view(old(out)@) + choice_spec(old(self)@, choice@).0,
            final(self)@ == choice_spec(old(self)@, choice@).1,
    {
        let ghost start = events_view(out@);
        let delta = choice.get("delta");
        let content = match delta {
            Some(d) => d.get("content"),
            None => None,
        };
        self.handle_text(content, false, out);
        let reasoning = match delta {
            Some(d) => d.get("reasoning_content"),
            None => None,
        };
        self.handle_text(reasoning, true, out);
        let ghost mid = events_view(out@);
        let tcs = match delta {
            Some(d) => d.get("tool_calls"),
            None => None,
        };
        match tcs {
            Some(Json::Array(a)) => self.handle_tool_calls(a, out),
            _ => {
                assert(events_view(out@) =~= mid + Seq::<StreamEventV>::empty());
            },
        }
        if let Some(fr) = choice.get_str("finish_reason") {
            self.stop_reason = Some(StopReason::from_openai(fr.as_str()));
        }
        assert(events_view(out@) =~= start + choice_spec(old(self)@, choice@).0);
    }

    /// The canonical events for one parsed chunk.
    pub fn on_event(&mut self, data: &Json) -> (r: Vec<StreamEvent>)
        ensures
            (events_view(r@), final(self)@) == chat_events(old(self)@, data@),
    {
        let mut out: Vec<StreamEvent> = Vec::new();
        if let Some(u) = data.get("usage") {
            if !u.is_null() {
                self.usage = Some(usage_from_openai(Some(u)));
            }
        }
        if !self.started {
            self.started = true;
            push_event(&mut out, StreamEvent::MessageStart { id: data.str_at("id"), model: data.str_at("model") });
        }
        if let Some(err) = data.get("error") {
            let message = err.str_or("message", "stream error");
            self.stop_reason = Some(StopReason::Other(concat("error: ", message.as_str())));
            assert(events_view(out@) =~= chat_events(old(self)@, data@).0);
            return out;
        }
        let cs = match data.get_array("choices") {
            Some(cs) => cs,
            None => {
                assert(events_view(out@) =~= chat_events(old(self)@, data@).0);
                return out;
            },
        };
        let ghost items = view_items(cs@);
        let ghost s0 = self@;
        let ghost head = events_view(out@);
        proof {
            lemma_view_items(cs@);
        }
        let mut i: usize = 0;
        while i < cs.len()
            invariant
                i <= cs.len(),
                items == view_items(cs@),
                items.len() == cs.len(),
                forall|k: int| 0 <= k < cs.len() ==> #[trigger] items[k] == cs@[k]@,
                events_view(out@) == head + choices_spec(s0, items.take(i as int)).0,
                self@ == choices_spec(s0, items.take(i as int)).1,
            decreases cs.len() - i,
        {
            assert(items.take(i + 1).drop_last() =~= items.take(i as int));
            assert(items.take(i + 1).last() == cs@[i as int]@);
            self.handle_choice(&cs[i], &mut out);
            assert(events_view(out@) =~= head + choices_spec(s0, items.take(i + 1)).0);
            i = i + 1;
        }
        assert(items.take(cs.len() as int) =~= items);
        out
    }
}

/// Whether a chunk's data is the `[DONE]` sentinel.
pub open spec fn is_done(data: Seq<char>) -> bool {
    trim_seq(data) == "[DONE]"@
}

impl StreamParser for OpenAiChatStreamParser {
    /// Parses one upstream chunk: `[DONE]` ends the message, blank data
    /// yields nothing, data that is no JSON is an error carrying serde_json's
    /// message.
    fn parse_event(&mut self, event: &SseEvent) -> (r: Result<Vec<StreamEvent>, GatewayError>)
        ensures
            is_done(event@.data) ==> (r matches Ok(v) && (events_view(v@), final(self)@)
                == finalize_spec(old(self)@)),
            !is_done(event@.data) && trim_seq(event@.data).len() == 0 ==> (r matches Ok(v)
                && v@.len() == 0 && final(self)@ == old(self)@),
            !is_done(event@.data) && trim_seq(event@.data).len() != 0 ==> match serde_parse(
                event@.data,
            ) {
                Err(m) => (r matches Err(e) && e@ == GatewayErrorV::InvalidJsonMessage(m)
                    && final(self)@ == old(self)@),
                Ok(d) => (r matches Ok(v) && (events_view(v@), final(self)@) == chat_events(
                    old(self)@,
                    d,
                )),
            },
    {
        let t = trim(event.data.as_str());
        if str_eq(t.as_str(), "[DONE]") {
            return Ok(self.finalize());
        }
        if t.as_str().is_empty() {
            return Ok(Vec::new());
        }
        let data = match parse_json(event.data.as_str()) {
            Ok(d) => d,
            Err(m) => return Err(GatewayError::InvalidJsonMessage(m)),
        };
        Ok(self.on_event(&data))
    }

    /// Ends the message at the end of the stream, if `[DONE]` did not.
    fn finish(&mut self) -> (r: Vec<StreamEvent>)
        ensures
            (events_view(r@), final(self)@) == finalize_spec(old(self)@),
    {
        self.finalize()
    }
}

} // verus!
