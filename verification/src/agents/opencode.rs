//! The OpenCode runtime: the bodies its session and message requests carry,
//! and its event stream filtered to one session, with text parts turned into
//! assistant responses.
use vstd::prelude::*;
use crate::agents::{
    AgentEvent, AgentEventV, AgentSdkError, AgentSdkErrorV, lemma_one_entry, opt_event_view, simple_event,
    text_part, text_part_spec,
};
use crate::json::{
    Json, JsonV, entries_get, entries_set, entry_lookup, entry_set, json_view, lemma_view_entries,
    lemma_view_items, view_entries, view_items,
};
use crate::text::{owned, str_eq};

verus! {

broadcast use vstd::string::group_string_axioms;

pub type Members = Seq<(Seq<char>, JsonV)>;

/// `entries` bound one after another onto `e`, as extending a map does.
pub open spec fn extend_spec(e: Members, entries: Members) -> Members
    decreases entries.len(),
{
    if entries.len() == 0 {
        e
    } else {
        let r = extend_spec(e, entries.drop_last());
        entry_set(r, entries.last().0, entries.last().1)
    }
}

/// A new session's body: its title, then the members of `resources` when it
/// is an object.
pub open spec fn session_body_spec(title: Seq<char>, resources: Option<JsonV>) -> JsonV {
    let base = seq![("title"@, JsonV::Str(title))];
    match resources {
        Some(JsonV::Object(e)) => JsonV::Object(extend_spec(base, e)),
        _ => JsonV::Object(base),
    }
}

pub fn session_body(title: String, resources: Option<Json>) -> (r: Json)
    ensures
        r@ == session_body_spec(title@, match resources {
            Some(j) => Some(j@),
            None => None,
        }),
{
    let mut body: Vec<(String, Json)> = vec![(owned("title"), Json::Str(title))];
    proof {
        lemma_one_entry(body@);
    }
    let ghost base = view_entries(body@);
    if let Some(Json::Object(extra)) = resources {
        let mut i: usize = 0;
        proof {
            lemma_view_entries(extra@);
        }
        let ghost ev = view_entries(extra@);
        while i < extra.len()
            invariant
                i <= extra.len(),
                ev == view_entries(extra@),
                ev.len() == extra.len(),
                forall|j: int| 0 <= j < extra.len() ==> #[trigger] ev[j] == (
                    extra@[j].0@,
                    extra@[j].1@,
                ),
                view_entries(body@) == extend_spec(base, ev.take(i as int)),
            decreases extra.len() - i,
        {
            assert(ev.take(i + 1).drop_last() =~= ev.take(i as int));
            let v = extra[i].1.clone();
            body = entries_set(body, extra[i].0.as_str(), v);
            i = i + 1;
        }
        assert(ev.take(extra.len() as int) =~= ev);
    }
    Json::Object(body)
}

/// The parts of one content item of a user message: a string as text, a
/// text item by its text (empty when it has none), any other object as it
/// is.
pub open spec fn item_part(item: JsonV) -> Option<JsonV> {
    match item {
        JsonV::Str(t) => Some(text_part_spec(t)),
        JsonV::Object(_) => if item.get_str("type"@) == Some("text"@) {
            Some(
                text_part_spec(
                    match item.get_str("text"@) {
                        Some(t) => t,
                        None => Seq::empty(),
                    },
                ),
            )
        } else {
            Some(item)
        },
        _ => None,
    }
}

pub open spec fn items_parts(items: Seq<JsonV>) -> Seq<JsonV>
    decreases items.len(),
{
    if items.len() == 0 {
        Seq::empty()
    } else {
        let r = items_parts(items.drop_last());
        match item_part(items.last()) {
            Some(p) => r.push(p),
            None => r,
        }
    }
}

/// The message parts one event contributes: none unless it is a user message.
pub open spec fn event_parts(event: JsonV) -> Seq<JsonV> {
    if event.get_str("type"@) != Some("user.message"@) {
        Seq::empty()
    } else {
        match event.get("content"@) {
            Some(JsonV::Str(t)) => seq![text_part_spec(t)],
            Some(JsonV::Array(items)) => items_parts(items),
            _ => Seq::empty(),
        }
    }
}

pub open spec fn events_parts(events: Seq<JsonV>) -> Seq<JsonV>
    decreases events.len(),
{
    if events.len() == 0 {
        Seq::empty()
    } else {
        events_parts(events.drop_last()) + event_parts(events.last())
    }
}

pub open spec fn no_parts_message() -> Seq<char> {
    "opencode runtime requires at least one user.message content part"@
}

fn item_part_exec(item: &Json) -> (r: Option<Json>)
    ensures
        match r {
            Some(p) => item_part(item@) == Some(p@),
            None => item_part(item@) is None,
        },
{
    match item {
        Json::Str(t) => Some(text_part(t.as_str())),
        Json::Object(_) => {
            let is_text = match item.get_str("type") {
                Some(t) => str_eq(t.as_str(), "text"),
                None => false,
            };
            if is_text {
                let text = match item.get_str("text") {
                    Some(t) => t.clone(),
                    None => String::new(),
                };
                Some(text_part(text.as_str()))
            } else {
                Some(item.clone())
            }
        },
        _ => None,
    }
}

fn push_event_parts(parts: &mut Vec<Json>, event: &Json)
    ensures
        view_items(final(parts)@) == view_items(old(parts)@) + event_parts(event@),
{
    proof {
        lemma_view_items(parts@);
    }
    let is_user = match event.get_str("type") {
        Some(t) => str_eq(t.as_str(), "user.message"),
        None => false,
    };
    if !is_user {
        assert(view_items(parts@) + Seq::<JsonV>::empty() =~= view_items(parts@));
        return;
    }
    match event.get("content") {
        Some(Json::Str(t)) => {
            let ghost prev = parts@;
            parts.push(text_part(t.as_str()));
            assert(parts@.drop_last() == prev);
            assert(view_items(parts@) =~= view_items(prev) + seq![text_part_spec(t@)]);
        },
        Some(Json::Array(items)) => {
            let ghost start = view_items(parts@);
            proof {
                lemma_view_items(items@);
            }
            let ghost iv = view_items(items@);
            let mut i: usize = 0;
            while i < items.len()
                invariant
                    i <= items.len(),
                    iv == view_items(items@),
                    iv.len() == items.len(),
                    forall|j: int| 0 <= j < items.len() ==> #[trigger] iv[j] == items@[j]@,
                    view_items(parts@) == start + items_parts(iv.take(i as int)),
                decreases items.len() - i,
            {
                assert(iv.take(i + 1).drop_last() =~= iv.take(i as int));
                match item_part_exec(&items[i]) {
                    Some(p) => {
                        let ghost prev = parts@;
                        let ghost pv = p@;
                        parts.push(p);
                        assert(parts@.drop_last() == prev);
                        assert(view_items(parts@) == view_items(prev).push(pv));
                        assert(view_items(parts@) =~= start + items_parts(iv.take(i + 1)));
                    },
                    None => {},
                }
                i = i + 1;
            }
            assert(iv.take(items.len() as int) =~= iv);
        },
        _ => {
            assert(view_items(parts@) + Seq::<JsonV>::empty() =~= view_items(parts@));
        },
    }
}

/// The message parts of the user messages among `events`, in order; an
/// error when there are none.
pub fn parts_from_events(events: &[Json]) -> (r: Result<Vec<Json>, AgentSdkError>)
    ensures
        ({
            let parts = events_parts(events@.map_values(|e: Json| e@));
            match r {
                Ok(v) => parts.len() > 0 && view_items(v@) == parts,
                Err(e) => parts.len() == 0 && e@ == AgentSdkErrorV::InvalidRequest(
                    no_parts_message(),
                ),
            }
        }),
{
    let ghost ev = events@.map_values(|e: Json| e@);
    let mut parts: Vec<Json> = Vec::new();
    let mut i: usize = 0;
    while i < events.len()
        invariant
            i <= events.len(),
            ev == events@.map_values(|e: Json| e@),
            view_items(parts@) == events_parts(ev.take(i as int)),
        decreases events.len() - i,
    {
        assert(ev.take(i + 1).drop_last() =~= ev.take(i as int));
        assert(ev.take(i + 1).last() == events@[i as int]@);
        push_event_parts(&mut parts, &events[i]);
        i = i + 1;
    }
    assert(ev.take(events.len() as int) =~= ev);
    proof {
        lemma_view_items(parts@);
    }
    if parts.len() == 0 {
        proof {
            reveal_strlit("opencode runtime requires at least one user.message content part");
        }
        return Err(
            AgentSdkError::InvalidRequest(
                owned("opencode runtime requires at least one user.message content part"),
            ),
        );
    }
    Ok(parts)
}

/// A message request's body: `{"parts": [...]}`.
pub fn message_body(events: &[Json]) -> (r: Result<Json, AgentSdkError>)
    ensures
        ({
            let parts = events_parts(events@.map_values(|e: Json| e@));
            match r {
                Ok(j) => parts.len() > 0 && j@ == JsonV::empty_object().set(
                    "parts"@,
                    JsonV::Array(parts),
                ),
                Err(e) => parts.len() == 0 && e@ == AgentSdkErrorV::InvalidRequest(
                    no_parts_message(),
                ),
            }
        }),
{
    match parts_from_events(events) {
        Ok(parts) => Ok(Json::object().set("parts", Json::Array(parts))),
        Err(e) => Err(e),
    }
}

// ---- the event stream ---------------------------------------------------------

pub open spec fn str_of(v: Option<JsonV>) -> Option<Seq<char>> {
    match v {
        Some(JsonV::Str(s)) => Some(s),
        _ => None,
    }
}

/// `data[parent][field]` as a string.
pub open spec fn nested_str_spec(data: Members, parent: Seq<char>, field: Seq<char>) -> Option<Seq<char>> {
    match entry_lookup(data, parent) {
        Some(JsonV::Object(e)) => str_of(entry_lookup(e, field)),
        _ => None,
    }
}

pub open spec fn or_str(a: Option<Seq<char>>, b: Option<Seq<char>>) -> Option<Seq<char>> {
    match a {
        Some(_) => a,
        None => b,
    }
}

/// The session an event belongs to, by the first of its spellings present.
pub open spec fn session_id_spec(data: Members) -> Option<Seq<char>> {
    or_str(
        str_of(entry_lookup(data, "sessionID"@)),
        or_str(
            str_of(entry_lookup(data, "session_id"@)),
            or_str(
                str_of(entry_lookup(data, "sessionId"@)),
                or_str(
                    nested_str_spec(data, "info"@, "sessionID"@),
                    or_str(
                        nested_str_spec(data, "message"@, "sessionID"@),
                        nested_str_spec(data, "part"@, "sessionID"@),
                    ),
                ),
            ),
        ),
    )
}

/// The text an event carries, by the first of its places present.
pub open spec fn text_spec(data: Members) -> Option<Seq<char>> {
    or_str(
        str_of(entry_lookup(data, "text"@)),
        or_str(
            str_of(entry_lookup(data, "delta"@)),
            or_str(nested_str_spec(data, "delta"@, "text"@), nested_str_spec(data, "part"@, "text"@)),
        ),
    )
}

/// An assistant response with the event's text and session, when it has text.
pub open spec fn assistant_text_spec(data: Members) -> Option<AgentEventV> {
    match text_spec(data) {
        None => None,
        Some(text) => {
            let base = seq![("text"@, JsonV::Str(text))];
            Some(
                AgentEventV {
                    event_type: "assistant_response"@,
                    data: match session_id_spec(data) {
                        Some(sid) => base.push(("sessionID"@, JsonV::Str(sid))),
                        None => base,
                    },
                },
            )
        },
    }
}

/// An event of `session_id`'s stream as the SDK reports it: an idle notice as
/// the idle status (with a clean stop unless it names one), a message part as
/// an assistant response; events of other sessions are dropped.
pub open spec fn normalize_event_spec(session_id: Seq<char>, e: AgentEventV) -> Option<AgentEventV> {
    if session_id_spec(e.data) != Some(session_id) {
        None
    } else {
        let e1 = if e.event_type == "session.idle"@ {
            AgentEventV {
                event_type: "session.status_idle"@,
                data: if entry_lookup(e.data, "stop_reason"@) is Some {
                    e.data
                } else {
                    entry_set(
                        e.data,
                        "stop_reason"@,
                        JsonV::empty_object().set("type"@, JsonV::Str("end_turn"@)),
                    )
                },
            }
        } else {
            e
        };
        if e1.event_type == "message.part.delta"@ || e1.event_type == "message.part.updated"@ {
            assistant_text_spec(e1.data)
        } else {
            Some(e1)
        }
    }
}

fn str_member<'a>(data: &'a Vec<(String, Json)>, key: &str) -> (r: Option<&'a String>)
    ensures
        match r {
            Some(s) => str_of(entry_lookup(view_entries(data@), key@)) == Some(s@),
            None => str_of(entry_lookup(view_entries(data@), key@)) is None,
        },
{
    match entries_get(data, key) {
        Some(Json::Str(s)) => Some(s),
        _ => None,
    }
}

fn nested_str<'a>(data: &'a Vec<(String, Json)>, parent: &str, field: &str) -> (r: Option<&'a String>)
    ensures
        match r {
            Some(s) => nested_str_spec(view_entries(data@), parent@, field@) == Some(s@),
            None => nested_str_spec(view_entries(data@), parent@, field@) is None,
        },
{
    match entries_get(data, parent) {
        Some(Json::Object(e)) => str_member(e, field),
        _ => None,
    }
}

fn session_id_from_data<'a>(data: &'a Vec<(String, Json)>) -> (r: Option<&'a String>)
    ensures
        match r {
            Some(s) => session_id_spec(view_entries(data@)) == Some(s@),
            None => session_id_spec(view_entries(data@)) is None,
        },
{
    if let Some(s) = str_member(data, "sessionID") {
        return Some(s);
    }
    if let Some(s) = str_member(data, "session_id") {
        return Some(s);
    }
    if let Some(s) = str_member(data, "sessionId") {
        return Some(s);
    }
    if let Some(s) = nested_str(data, "info", "sessionID") {
        return Some(s);
    }
    if let Some(s) = nested_str(data, "message", "sessionID") {
        return Some(s);
    }
    nested_str(data, "part", "sessionID")
}

fn text_from_data<'a>(data: &'a Vec<(String, Json)>) -> (r: Option<&'a String>)
    ensures
        match r {
            Some(s) => text_spec(view_entries(data@)) == Some(s@),
            None => text_spec(view_entries(data@)) is None,
        },
{
    if let Some(s) = str_member(data, "text") {
        return Some(s);
    }
    if let Some(s) = str_member(data, "delta") {
        return Some(s);
    }
    if let Some(s) = nested_str(data, "delta", "text") {
        return Some(s);
    }
    nested_str(data, "part", "text")
}

fn assistant_text_event(data: &Vec<(String, Json)>) -> (r: Option<AgentEvent>)
    ensures
        opt_event_view(r) == assistant_text_spec(view_entries(data@)),
{
    let text = match text_from_data(data) {
        Some(t) => t.clone(),
        None => return None,
    };
    let mut output: Vec<(String, Json)> = vec![(owned("text"), Json::Str(text))];
    proof {
        lemma_one_entry(output@);
    }
    match session_id_from_data(data) {
        Some(sid) => {
            let ghost prev = output@;
            let ghost sv = sid@;
            let key = owned("sessionID");
            let value = Json::Str(owned(sid.as_str()));
            assert(json_view(value) == JsonV::Str(sv));
            output.push((key, value));
            assert(output@.drop_last() == prev);
            assert(output@.last().0@ == "sessionID"@);
            assert(view_entries(output@) == view_entries(prev).push(("sessionID"@, JsonV::Str(sv))));
        },
        None => {},
    }
    Some(simple_event("assistant_response", output))
}

/// The event as `session_id`'s stream reports it, or None when it belongs
/// to another session or carries no text where text is expected.
pub fn normalize_event(session_id: &str, event: AgentEvent) -> (r: Option<AgentEvent>)
    ensures
        opt_event_view(r) == normalize_event_spec(session_id@, event@),
{
    let same = match session_id_from_data(&event.data) {
        Some(s) => str_eq(s.as_str(), session_id),
        None => false,
    };
    if !same {
        return None;
    }
    let mut event = event;
    if str_eq(event.event_type.as_str(), "session.idle") {
        event.event_type = owned("session.status_idle");
        if entries_get(&event.data, "stop_reason").is_none() {
            let mut data: Vec<(String, Json)> = Vec::new();
            std::mem::swap(&mut data, &mut event.data);
            event.data = entries_set(
                data,
                "stop_reason",
                Json::object().set("type", Json::str("end_turn")),
            );
        }
    }
    let t = event.event_type.as_str();
    if str_eq(t, "message.part.delta") || str_eq(t, "message.part.updated") {
        return assistant_text_event(&event.data);
    }
    Some(event)
}

} // verus!
