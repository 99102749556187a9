//! The Cursor runtime's event stream, normalized: assistant text is gathered
//! into one message, the running and thinking notices come once, and each
//! tool call is announced once by its call id.
use vstd::prelude::*;
use crate::agents::{
    AgentEvent, AgentEventV, agent_events_view, lemma_one_entry, lemma_one_item, opt_event_view,
    simple_event, simple_event_spec, text_part, text_part_spec,
};
use crate::json::{
    Json, JsonV, entries_get, entries_remove, entries_set, entry_lookup, entry_remove, entry_set,
    serde_text, to_json_text, view_entries, view_items,
};
use crate::text::{concat, owned, str_eq};

verus! {

broadcast use vstd::string::group_string_axioms;

/// What the normalizer remembers between events.
pub struct CursorStateV {
    pub assistant_text: Seq<char>,
    pub emitted_running: bool,
    pub emitted_thinking: bool,
    pub emitted_tool_uses: Set<Seq<char>>,
}

pub type Members = Seq<(Seq<char>, JsonV)>;

pub open spec fn str_member(d: Members, key: Seq<char>) -> Option<Seq<char>> {
    match entry_lookup(d, key) {
        Some(JsonV::Str(s)) => Some(s),
        _ => None,
    }
}

/// A tool result's content: a string as it is, anything else as serde_json
/// writes it.
pub open spec fn result_text_part(v: JsonV) -> JsonV {
    text_part_spec(
        match v {
            JsonV::Str(s) => s,
            _ => serde_text(v),
        },
    )
}

pub open spec fn agent_message_spec(text: Seq<char>) -> AgentEventV {
    simple_event_spec(
        "agent.message"@,
        seq![("content"@, JsonV::Array(seq![text_part_spec(text)]))],
    )
}

pub open spec fn idle_data_spec() -> Members {
    seq![("stop_reason"@, JsonV::empty_object().set("type"@, JsonV::Str("end_turn"@)))]
}

/// A tool call's data as a tool-use event carries it: `callId` becomes `id`,
/// `args` becomes `input` (an empty object when there are none), and the
/// status and result are dropped.
pub open spec fn tool_use_data(d: Members) -> Members {
    let d1 = match entry_lookup(d, "callId"@) {
        Some(c) => entry_set(entry_remove(d, "callId"@), "id"@, c),
        None => d,
    };
    let d2 = match entry_lookup(d1, "args"@) {
        Some(a) => entry_set(entry_remove(d1, "args"@), "input"@, a),
        None => d1,
    };
    let d3 = entry_remove(entry_remove(d2, "status"@), "result"@);
    if entry_lookup(d3, "input"@) is Some {
        d3
    } else {
        entry_set(d3, "input"@, JsonV::empty_object())
    }
}

/// The tool-result event of a call: its id, and its result as text content
/// when it has one. None without a call id.
pub open spec fn tool_result_spec(d: Members) -> Option<AgentEventV> {
    match entry_lookup(d, "callId"@) {
        None => None,
        Some(c) => {
            let base = seq![("tool_use_id"@, c)];
            Some(
                simple_event_spec(
                    "agent.tool_result"@,
                    match entry_lookup(d, "result"@) {
                        Some(r) => base.push(("content"@, JsonV::Array(seq![result_text_part(r)]))),
                        None => base,
                    },
                ),
            )
        },
    }
}

pub open spec fn opt_seq(o: Option<AgentEventV>) -> Seq<AgentEventV> {
    match o {
        Some(e) => seq![e],
        None => Seq::empty(),
    }
}

/// The gathered assistant text as one message, if there is any.
pub open spec fn flush_spec(s: CursorStateV) -> (Option<AgentEventV>, CursorStateV) {
    if s.assistant_text.len() == 0 {
        (None, s)
    } else {
        (
            Some(agent_message_spec(s.assistant_text)),
            CursorStateV { assistant_text: Seq::empty(), ..s },
        )
    }
}

/// `e` after the gathered assistant text.
pub open spec fn flush_then_spec(s: CursorStateV, e: AgentEventV) -> (Seq<AgentEventV>, CursorStateV) {
    let (m, s1) = flush_spec(s);
    (opt_seq(m).push(e), s1)
}

pub open spec fn thinking_spec(s: CursorStateV) -> (Option<AgentEventV>, CursorStateV) {
    if s.emitted_thinking {
        (None, s)
    } else {
        (
            Some(simple_event_spec("agent.thinking"@, Seq::empty())),
            CursorStateV { emitted_thinking: true, ..s },
        )
    }
}

pub open spec fn running_spec(s: CursorStateV) -> (Option<AgentEventV>, CursorStateV) {
    if s.emitted_running {
        (None, s)
    } else {
        (
            Some(simple_event_spec("session.status_running"@, Seq::empty())),
            CursorStateV { emitted_running: true, ..s },
        )
    }
}

/// The tool-use event of a call not announced before; None for a call
/// without a string call id or one already announced.
pub open spec fn emit_tool_use_spec(s: CursorStateV, d: Members) -> (Option<AgentEventV>, CursorStateV) {
    match str_member(d, "callId"@) {
        Some(id) => if s.emitted_tool_uses.contains(id) {
            (None, s)
        } else {
            (
                Some(simple_event_spec("agent.tool_use"@, tool_use_data(d))),
                CursorStateV { emitted_tool_uses: s.emitted_tool_uses.insert(id), ..s },
            )
        },
        None => (None, s),
    }
}

pub open spec fn flush_then_opt(s: CursorStateV, e: Option<AgentEventV>) -> (
    Seq<AgentEventV>,
    CursorStateV,
) {
    match e {
        Some(ev) => flush_then_spec(s, ev),
        None => (Seq::empty(), s),
    }
}

pub open spec fn completed_spec(s: CursorStateV, d: Members) -> (Seq<AgentEventV>, CursorStateV) {
    let (u, s1) = emit_tool_use_spec(s, d);
    let (e1, s2) = flush_then_opt(s1, u);
    (e1 + opt_seq(tool_result_spec(d)), s2)
}

pub open spec fn tool_events_spec(s: CursorStateV, d: Members) -> (Seq<AgentEventV>, CursorStateV) {
    let status = str_member(d, "status"@);
    if status == Some("completed"@) {
        completed_spec(s, d)
    } else if status == Some("running"@) && entry_lookup(d, "args"@) is Some {
        let (u, s1) = emit_tool_use_spec(s, d);
        flush_then_opt(s1, u)
    } else {
        (Seq::empty(), s)
    }
}

pub open spec fn status_events_spec(s: CursorStateV, d: Members) -> (Seq<AgentEventV>, CursorStateV) {
    match str_member(d, "status"@) {
        Some(st) => if st == "RUNNING"@ {
            let (e, s1) = running_spec(s);
            (opt_seq(e), s1)
        } else if st == "FINISHED"@ {
            flush_then_spec(s, simple_event_spec("session.status_idle"@, idle_data_spec()))
        } else if st == "ERROR"@ || st == "CANCELLED"@ || st == "EXPIRED"@ {
            flush_then_spec(s, simple_event_spec("session.error"@, d))
        } else {
            (Seq::empty(), s)
        },
        None => (Seq::empty(), s),
    }
}

/// The normalized events for one Cursor event, and the state after.
pub open spec fn normalize_spec(s: CursorStateV, e: AgentEventV) -> (Seq<AgentEventV>, CursorStateV) {
    let t = e.event_type;
    if t == "assistant"@ {
        match str_member(e.data, "text"@) {
            Some(text) => (Seq::empty(), CursorStateV { assistant_text: s.assistant_text + text, ..s }),
            None => (Seq::empty(), s),
        }
    } else if t == "thinking"@ {
        let (ev, s1) = thinking_spec(s);
        (opt_seq(ev), s1)
    } else if t == "tool_call"@ {
        tool_events_spec(s, e.data)
    } else if t == "status"@ || t == "result"@ {
        status_events_spec(s, e.data)
    } else if t == "error"@ {
        (seq![simple_event_spec("session.error"@, e.data)], s)
    } else {
        (Seq::empty(), s)
    }
}

fn str_member_exec<'a>(d: &'a Vec<(String, Json)>, key: &str) -> (r: Option<&'a String>)
    ensures
        match r {
            Some(s) => str_member(view_entries(d@), key@) == Some(s@),
            None => str_member(view_entries(d@), key@) is None,
        },
{
    match entries_get(d, key) {
        Some(Json::Str(s)) => Some(s),
        _ => None,
    }
}

fn agent_message_event(text: String) -> (r: AgentEvent)
    ensures
        r@ == agent_message_spec(text@),
{
    let part = text_part(text.as_str());
    let items = vec![part];
    proof {
        lemma_one_item(items@);
    }
    let content = Json::Array(items);
    let data = vec![(owned("content"), content)];
    proof {
        lemma_one_entry(data@);
    }
    simple_event("agent.message", data)
}

fn idle_data() -> (r: Vec<(String, Json)>)
    ensures
        view_entries(r@) == idle_data_spec(),
{
    let r = vec![(owned("stop_reason"), Json::object().set("type", Json::str("end_turn")))];
    proof {
        lemma_one_entry(r@);
    }
    r
}

fn tool_event(data: Vec<(String, Json)>) -> (r: AgentEvent)
    ensures
        r@ == simple_event_spec("agent.tool_use"@, tool_use_data(view_entries(data@))),
{
    let d1 = match entries_get(&data, "callId") {
        Some(c) => {
            let c = c.clone();
            entries_set(entries_remove(&data, "callId"), "id", c)
        },
        None => data,
    };
    let d2 = match entries_get(&d1, "args") {
        Some(a) => {
            let a = a.clone();
            entries_set(entries_remove(&d1, "args"), "input", a)
        },
        None => d1,
    };
    let d3 = entries_remove(&entries_remove(&d2, "status"), "result");
    let d4 = match entries_get(&d3, "input") {
        Some(_) => d3,
        None => entries_set(d3, "input", Json::object()),
    };
    simple_event("agent.tool_use", d4)
}

fn result_text(value: &Json) -> (r: Json)
    ensures
        r@ == result_text_part(value@),
{
    match value {
        Json::Str(t) => text_part(t.as_str()),
        other => {
            let t = to_json_text(other);
            text_part(t.as_str())
        },
    }
}

fn tool_result_event(data: &Vec<(String, Json)>) -> (r: Option<AgentEvent>)
    ensures
        opt_event_view(r) == tool_result_spec(view_entries(data@)),
{
    let call_id = match entries_get(data, "callId") {
        Some(c) => c.clone(),
        None => return None,
    };
    let mut out: Vec<(String, Json)> = vec![(owned("tool_use_id"), call_id)];
    proof {
        lemma_one_entry(out@);
    }
    match entries_get(data, "result") {
        Some(result) => {
            let part = result_text(result);
            let ghost prev = out@;
            let items = vec![part];
            proof {
                lemma_one_item(items@);
            }
            let content = Json::Array(items);
            let ghost cv = content@;
            out.push((owned("content"), content));
            assert(out@.drop_last() == prev);
            assert(view_entries(out@) == view_entries(prev).push(("content"@, cv)));
        },
        None => {},
    }
    Some(simple_event("agent.tool_result", out))
}

/// Normalizes the Cursor runtime's raw events one at a time.
pub struct CursorStreamState {
    assistant_text: String,
    emitted_running: bool,
    emitted_thinking: bool,
    emitted_tool_uses: Vec<String>,
}

pub open spec fn names_set(v: Seq<String>) -> Set<Seq<char>> {
    v.map_values(|s: String| s@).to_set()
}

impl View for CursorStreamState {
    type V = CursorStateV;

    closed spec fn view(&self) -> CursorStateV {
        CursorStateV {
            assistant_text: self.assistant_text@,
            emitted_running: self.emitted_running,
            emitted_thinking: self.emitted_thinking,
            emitted_tool_uses: names_set(self.emitted_tool_uses@),
        }
    }
}

impl CursorStreamState {
    pub fn new() -> (r: CursorStreamState)
        ensures
            r@ == (CursorStateV {
                assistant_text: Seq::empty(),
                emitted_running: false,
                emitted_thinking: false,
                emitted_tool_uses: Set::empty(),
            }),
    {
        let r = CursorStreamState {
            assistant_text: String::new(),
            emitted_running: false,
            emitted_thinking: false,
            emitted_tool_uses: Vec::new(),
        };
        assert(names_set(r.emitted_tool_uses@) =~= Set::<Seq<char>>::empty());
        r
    }

    fn announced(&self, id: &str) -> (r: bool)
        ensures
            r == self@.emitted_tool_uses.contains(id@),
    {
        let mut i: usize = 0;
        while i < self.emitted_tool_uses.len()
            invariant
                i <= self.emitted_tool_uses.len(),
                forall|j: int| 0 <= j < i ==> self.emitted_tool_uses@[j]@ != id@,
            decreases self.emitted_tool_uses.len() - i,
        {
            if str_eq(self.emitted_tool_uses[i].as_str(), id) {
                assert(self.emitted_tool_uses@.map_values(|s: String| s@)[i as int] == id@);
                return true;
            }
            i = i + 1;
        }
        proof {
            if self@.emitted_tool_uses.contains(id@) {
                let names = self.emitted_tool_uses@.map_values(|s: String| s@);
                let j = names.index_of(id@);
                assert(names[j] == self.emitted_tool_uses@[j]@);
            }
        }
        false
    }

    /// The gathered assistant text as one message, if there is any.
    pub fn flush_agent_message(&mut self) -> (r: Option<AgentEvent>)
        ensures
            (opt_event_view(r), final(self)@) == flush_spec(old(self)@),
    {
        if self.assistant_text.as_str().is_empty() {
            proof {
                assert(self.assistant_text@.len() == 0);
            }
            return None;
        }
        let text = self.assistant_text.clone();
        self.assistant_text = String::new();
        Some(agent_message_event(text))
    }

    fn flush_then(&mut self, event: AgentEvent) -> (r: Vec<AgentEvent>)
        ensures
            (agent_events_view(r@), final(self)@) == flush_then_spec(old(self)@, event@),
    {
        let mut events: Vec<AgentEvent> = Vec::new();
        match self.flush_agent_message() {
            Some(message) => events.push(message),
            None => {},
        }
        events.push(event);
        assert(agent_events_view(events@) =~= opt_seq(flush_spec(old(self)@).0).push(event@));
        events
    }

    fn flush_then_opt(&mut self, event: Option<AgentEvent>) -> (r: Vec<AgentEvent>)
        ensures
            (agent_events_view(r@), final(self)@) == flush_then_opt(old(self)@, opt_event_view(event)),
    {
        match event {
            Some(e) => self.flush_then(e),
            None => {
                let r: Vec<AgentEvent> = Vec::new();
                assert(agent_events_view(r@) =~= Seq::<AgentEventV>::empty());
                r
            },
        }
    }

    fn thinking_event(&mut self) -> (r: Option<AgentEvent>)
        ensures
            (opt_event_view(r), final(self)@) == thinking_spec(old(self)@),
    {
        if self.emitted_thinking {
            return None;
        }
        self.emitted_thinking = true;
        let r = simple_event("agent.thinking", Vec::new());
        assert(view_entries(Seq::<(String, Json)>::empty()) =~= Seq::<(Seq<char>, JsonV)>::empty());
        Some(r)
    }

    fn running_event(&mut self) -> (r: Option<AgentEvent>)
        ensures
            (opt_event_view(r), final(self)@) == running_spec(old(self)@),
    {
        if self.emitted_running {
            return None;
        }
        self.emitted_running = true;
        let r = simple_event("session.status_running", Vec::new());
        assert(view_entries(Seq::<(String, Json)>::empty()) =~= Seq::<(Seq<char>, JsonV)>::empty());
        Some(r)
    }

    fn emit_tool_use(&mut self, data: &Vec<(String, Json)>) -> (r: Option<AgentEvent>)
        ensures
            (opt_event_view(r), final(self)@) == emit_tool_use_spec(old(self)@, view_entries(data@)),
    {
        let call_id = match str_member_exec(data, "callId") {
            Some(c) => c.clone(),
            None => return None,
        };
        if self.announced(call_id.as_str()) {
            return None;
        }
        let ghost before = self.emitted_tool_uses@;
        self.emitted_tool_uses.push(call_id);
        proof {
            let names = before.map_values(|s: String| s@);
            assert(self.emitted_tool_uses@.map_values(|s: String| s@) =~= names.push(call_id@));
            names.lemma_push_to_set_commute(call_id@);
        }
        let copy = clone_members(data);
        Some(tool_event(copy))
    }

    fn completed_tool_events(&mut self, data: &Vec<(String, Json)>) -> (r: Vec<AgentEvent>)
        ensures
            (agent_events_view(r@), final(self)@) == completed_spec(old(self)@, view_entries(data@)),
    {
        let u = self.emit_tool_use(data);
        let mut events = self.flush_then_opt(u);
        let ghost first = agent_events_view(events@);
        match tool_result_event(data) {
            Some(e) => {
                events.push(e);
            },
            None => {},
        }
        assert(agent_events_view(events@) =~= first + opt_seq(tool_result_spec(view_entries(data@))));
        events
    }

    fn tool_events(&mut self, data: &Vec<(String, Json)>) -> (r: Vec<AgentEvent>)
        ensures
            (agent_events_view(r@), final(self)@) == tool_events_spec(old(self)@, view_entries(data@)),
    {
        let status = str_member_exec(data, "status");
        let completed = match status {
            Some(s) => str_eq(s.as_str(), "completed"),
            None => false,
        };
        if completed {
            return self.completed_tool_events(data);
        }
        let running = match status {
            Some(s) => str_eq(s.as_str(), "running"),
            None => false,
        };
        if running && entries_get(data, "args").is_some() {
            let u = self.emit_tool_use(data);
            return self.flush_then_opt(u);
        }
        let r: Vec<AgentEvent> = Vec::new();
        assert(agent_events_view(r@) =~= Seq::<AgentEventV>::empty());
        r
    }

    fn status_events(&mut self, data: &Vec<(String, Json)>) -> (r: Vec<AgentEvent>)
        ensures
            (agent_events_view(r@), final(self)@) == status_events_spec(old(self)@, view_entries(data@)),
    {
        let empty: Vec<AgentEvent> = Vec::new();
        assert(agent_events_view(empty@) =~= Seq::<AgentEventV>::empty());
        let status = match str_member_exec(data, "status") {
            Some(s) => s.clone(),
            None => return empty,
        };
        let st = status.as_str();
        if str_eq(st, "RUNNING") {
            let mut out: Vec<AgentEvent> = Vec::new();
            match self.running_event() {
                Some(e) => out.push(e),
                None => {},
            }
            assert(agent_events_view(out@) =~= opt_seq(running_spec(old(self)@).0));
            out
        } else if str_eq(st, "FINISHED") {
            self.flush_then(simple_event("session.status_idle", idle_data()))
        } else if str_eq(st, "ERROR") || str_eq(st, "CANCELLED") || str_eq(st, "EXPIRED") {
            let copy = clone_members(data);
            self.flush_then(simple_event("session.error", copy))
        } else {
            empty
        }
    }

    /// The normalized events for one raw event.
    pub fn normalize(&mut self, event: AgentEvent) -> (r: Vec<AgentEvent>)
        ensures
            (agent_events_view(r@), final(self)@) == normalize_spec(old(self)@, event@),
    {
        let t = event.event_type.as_str();
        if str_eq(t, "assistant") {
            match str_member_exec(&event.data, "text") {
                Some(text) => {
                    self.assistant_text = concat(self.assistant_text.as_str(), text.as_str());
                },
                None => {},
            }
            let r: Vec<AgentEvent> = Vec::new();
            assert(agent_events_view(r@) =~= Seq::<AgentEventV>::empty());
            r
        } else if str_eq(t, "thinking") {
            let mut out: Vec<AgentEvent> = Vec::new();
            match self.thinking_event() {
                Some(e) => out.push(e),
                None => {},
            }
            assert(agent_events_view(out@) =~= opt_seq(thinking_spec(old(self)@).0));
            out
        } else if str_eq(t, "tool_call") {
            self.tool_events(&event.data)
        } else if str_eq(t, "status") || str_eq(t, "result") {
            self.status_events(&event.data)
        } else if str_eq(t, "error") {
            let out = vec![simple_event("session.error", event.data)];
            assert(agent_events_view(out@) =~= seq![simple_event_spec("session.error"@, event@.data)]);
            out
        } else {
            let r: Vec<AgentEvent> = Vec::new();
            assert(agent_events_view(r@) =~= Seq::<AgentEventV>::empty());
            r
        }
    }
}

fn clone_members(d: &Vec<(String, Json)>) -> (r: Vec<(String, Json)>)
    ensures
        view_entries(r@) == view_entries(d@),
{
    crate::json::clone_entries(d)
}

} // verus!
