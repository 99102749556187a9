//! The Gemini agent runtime's interaction requests: the body that continues
//! a session with the user's messages, and when an interaction has ended.
use vstd::prelude::*;
use crate::agents::{AgentSdkError, AgentSdkErrorV, text_part, text_part_spec};
use crate::json::{Json, JsonV, lemma_view_items, view_items};
use crate::text::{owned, str_eq};

verus! {

broadcast use vstd::string::group_string_axioms;

/// Where a session's interactions go: the provider's agent and environment,
/// and the interaction to continue, if any.
pub struct GeminiContext {
    pub agent_id: String,
    pub environment_id: String,
    pub interaction_id: Option<String>,
}

/// The input part of one content item: a string as text, an object as it is.
pub open spec fn item_part(item: JsonV) -> Option<JsonV> {
    match item {
        JsonV::Str(t) => Some(text_part_spec(t)),
        JsonV::Object(_) => Some(item),
        _ => None,
    }
}

pub open spec fn items_parts(items: Seq<JsonV>) -> Seq<JsonV>
    decreases items.len(),
{
    if items.len() == 0 {
        Seq::empty()
    } else {
        let r = items_parts(items.drop_last());
        match item_part(items.last()) {
            Some(p) => r.push(p),
            None => r,
        }
    }
}

/// The input parts one event contributes: none unless it is a user message.
pub open spec fn event_parts(event: JsonV) -> Seq<JsonV> {
    if event.get_str("type"@) != Some("user.message"@) {
        Seq::empty()
    } else {
        match event.get("content"@) {
            Some(JsonV::Str(t)) => seq![text_part_spec(t)],
            Some(JsonV::Array(items)) => items_parts(items),
            _ => Seq::empty(),
        }
    }
}

pub open spec fn events_parts(events: Seq<JsonV>) -> Seq<JsonV>
    decreases events.len(),
{
    if events.len() == 0 {
        Seq::empty()
    } else {
        events_parts(events.drop_last()) + event_parts(events.last())
    }
}

pub open spec fn no_input_message() -> Seq<char> {
    "gemini_antigravity requires at least one user.message content block"@
}

/// An interaction's input: a lone text part as its text, else the parts.
pub open spec fn input_spec(parts: Seq<JsonV>) -> JsonV {
    if parts.len() == 1 && parts[0].get_str("text"@) is Some {
        JsonV::Str(parts[0].get_str("text"@)->0)
    } else {
        JsonV::Array(parts)
    }
}

fn push_event_parts(parts: &mut Vec<Json>, event: &Json)
    ensures
        view_items(final(parts)@) == view_items(old(parts)@) + event_parts(event@),
{
    let is_user = match event.get_str("type") {
        Some(t) => str_eq(t.as_str(), "user.message"),
        None => false,
    };
    if !is_user {
        assert(view_items(parts@) + Seq::<JsonV>::empty() =~= view_items(parts@));
        return;
    }
    match event.get("content") {
        Some(Json::Str(t)) => {
            let ghost prev = parts@;
            parts.push(text_part(t.as_str()));
            assert(parts@.drop_last() == prev);
            assert(view_items(parts@) =~= view_items(prev) + seq![text_part_spec(t@)]);
        },
        Some(Json::Array(items)) => {
            let ghost start = view_items(parts@);
            proof {
                lemma_view_items(items@);
            }
            let ghost iv = view_items(items@);
            let mut i: usize = 0;
            while i < items.len()
                invariant
                    i <= items.len(),
                    iv == view_items(items@),
                    iv.len() == items.len(),
                    forall|j: int| 0 <= j < items.len() ==> #[trigger] iv[j] == items@[j]@,
                    view_items(parts@) == start + items_parts(iv.take(i as int)),
                decreases items.len() - i,
            {
                assert(iv.take(i + 1).drop_last() =~= iv.take(i as int));
                let part = match &items[i] {
                    Json::Str(t) => Some(text_part(t.as_str())),
                    Json::Object(_) => Some(items[i].clone()),
                    _ => None,
                };
                match part {
                    Some(p) => {
                        let ghost prev = parts@;
                        let ghost pv = p@;
                        parts.push(p);
                        assert(parts@.drop_last() == prev);
                        assert(view_items(parts@) == view_items(prev).push(pv));
                        assert(view_items(parts@) =~= start + items_parts(iv.take(i + 1)));
                    },
                    None => {},
                }
                i = i + 1;
            }
            assert(iv.take(items.len() as int) =~= iv);
        },
        _ => {
            assert(view_items(parts@) + Seq::<JsonV>::empty() =~= view_items(parts@));
        },
    }
}

/// The input of the user messages among `events`; an error when they hold
/// no content.
pub fn input_from_events(events: &[Json]) -> (r: Result<Json, AgentSdkError>)
    ensures
        ({
            let parts = events_parts(events@.map_values(|e: Json| e@));
            match r {
                Ok(j) => parts.len() > 0 && j@ == input_spec(parts),
                Err(e) => parts.len() == 0 && e@ == AgentSdkErrorV::InvalidRequest(
                    no_input_message(),
                ),
            }
        }),
{
    let ghost ev = events@.map_values(|e: Json| e@);
    let mut parts: Vec<Json> = Vec::new();
    let mut i: usize = 0;
    while i < events.len()
        invariant
            i <= events.len(),
            ev == events@.map_values(|e: Json| e@),
            view_items(parts@) == events_parts(ev.take(i as int)),
        decreases events.len() - i,
    {
        assert(ev.take(i + 1).drop_last() =~= ev.take(i as int));
        assert(ev.take(i + 1).last() == events@[i as int]@);
        push_event_parts(&mut parts, &events[i]);
        i = i + 1;
    }
    assert(ev.take(events.len() as int) =~= ev);
    proof {
        lemma_view_items(parts@);
    }
    if parts.len() == 0 {
        proof {
            reveal_strlit("gemini_antigravity requires at least one user.message content block");
        }
        return Err(
            AgentSdkError::InvalidRequest(
                owned("gemini_antigravity requires at least one user.message content block"),
            ),
        );
    }
    if parts.len() == 1 {
        if let Some(text) = parts[0].get_str("text") {
            return Ok(Json::Str(owned(text.as_str())));
        }
    }
    Ok(Json::Array(parts))
}

/// The body of an interaction request.
pub open spec fn interaction_body_spec(
    agent_id: Seq<char>,
    environment_id: Seq<char>,
    interaction_id: Option<Seq<char>>,
    input: JsonV,
) -> JsonV {
    let o = JsonV::empty_object().set("agent"@, JsonV::Str(agent_id)).set("input"@, input).set(
        "environment"@,
        JsonV::Str(environment_id),
    ).set("store"@, JsonV::Bool(true));
    match interaction_id {
        Some(i) => o.set("previous_interaction_id"@, JsonV::Str(i)),
        None => o,
    }
}

/// The request that sends the user's messages to the session's agent,
/// continuing the previous interaction when there is one.
pub fn interaction_body(context: &GeminiContext, events: &[Json]) -> (r: Result<Json, AgentSdkError>)
    ensures
        ({
            let parts = events_parts(events@.map_values(|e: Json| e@));
            match r {
                Ok(j) => parts.len() > 0 && j@ == interaction_body_spec(
                    context.agent_id@,
                    context.environment_id@,
                    match context.interaction_id {
                        Some(i) => Some(i@),
                        None => None,
                    },
                    input_spec(parts),
                ),
                Err(e) => parts.len() == 0 && e@ == AgentSdkErrorV::InvalidRequest(
                    no_input_message(),
                ),
            }
        }),
{
    let body = Json::object().set("agent", Json::str(context.agent_id.as_str()));
    let input = match input_from_events(events) {
        Ok(i) => i,
        Err(e) => return Err(e),
    };
    let body = body.set("input", input).set(
        "environment",
        Json::str(context.environment_id.as_str()),
    ).set("store", Json::Bool(true));
    match &context.interaction_id {
        Some(id) => Ok(body.set("previous_interaction_id", Json::str(id.as_str()))),
        None => Ok(body),
    }
}

/// The statuses after which an interaction produces nothing more.
pub open spec fn terminal_status(s: Seq<char>) -> bool {
    s == "completed"@ || s == "failed"@ || s == "cancelled"@ || s == "incomplete"@ || s
        == "budget_exceeded"@
}

/// Whether an interaction has ended.
pub fn interaction_is_terminal(raw: &Json) -> (r: bool)
    ensures
        r == (raw@.get_str("status"@) matches Some(s) && terminal_status(s)),
{
    match raw.get_str("status") {
        Some(s) => {
            let s = s.as_str();
            str_eq(s, "completed") || str_eq(s, "failed") || str_eq(s, "cancelled") || str_eq(
                s,
                "incomplete",
            ) || str_eq(s, "budget_exceeded")
        },
        None => false,
    }
}

} // verus!
