//! Small helpers the Gemini codec modules share.
use vstd::prelude::*;
use crate::codec::anthropic::blocks::opt_json;
use crate::codec::common::or_else;
use crate::codec::openai_responses::decode::summary_text;
use crate::ir::Usage;
use crate::json::{Json, JsonV, lemma_view_items, view_items};

verus! {

broadcast use vstd::string::group_string_axioms;

/// A member read by its camelCase or, failing that, its snake_case name
/// (Gemini REST writes camelCase, its proto-JSON form accepts snake_case).
pub open spec fn field(obj: JsonV, camel: Seq<char>, snake: Seq<char>) -> Option<JsonV> {
    or_else(obj.get(camel), obj.get(snake))
}

pub fn field_exec<'a>(obj: &'a Json, camel: &str, snake: &str) -> (r: Option<&'a Json>)
    ensures
        opt_json(r) == field(obj@, camel@, snake@),
{
    match obj.get(camel) {
        Some(v) => Some(v),
        None => obj.get(snake),
    }
}

/// The texts of a content's parts, concatenated.
pub open spec fn parts_text(v: JsonV) -> Seq<char> {
    match v.get_array("parts"@) {
        Some(ps) => summary_text(ps),
        None => Seq::empty(),
    }
}

pub fn parse_parts_as_text(v: &Json) -> (r: String)
    ensures
        r@ == parts_text(v@),
{
    let parts = match v.get_array("parts") {
        Some(p) => p,
        None => return String::new(),
    };
    let ghost items = view_items(parts@);
    proof {
        lemma_view_items(parts@);
    }
    let mut text = String::new();
    let mut i: usize = 0;
    while i < parts.len()
        invariant
            i <= parts.len(),
            items == view_items(parts@),
            items.len() == parts.len(),
            forall|k: int| 0 <= k < parts.len() ==> #[trigger] items[k] == parts@[k]@,
            text@ == summary_text(items.take(i as int)),
        decreases parts.len() - i,
    {
        assert(items.take(i + 1).drop_last() =~= items.take(i as int));
        assert(items.take(i + 1).last() == parts@[i as int]@);
        match parts[i].get_str("text") {
            Some(t) => text.append(t.as_str()),
            None => {
                assert(text@ =~= text@ + Seq::<char>::empty());
            },
        }
        i = i + 1;
    }
    assert(items.take(parts.len() as int) =~= items);
    text
}

pub open spec fn u64_field(o: JsonV, camel: Seq<char>, snake: Seq<char>) -> u64 {
    match field(o, camel, snake) {
        Some(JsonV::UInt(n)) => n,
        _ => 0,
    }
}

/// Gemini usage: `promptTokenCount` already includes the cached tokens.
pub open spec fn usage_from_gemini_spec(v: Option<JsonV>) -> Usage {
    match v {
        Some(o) => if o is Object {
            Usage {
                input_tokens: u64_field(o, "promptTokenCount"@, "prompt_token_count"@),
                output_tokens: u64_field(o, "candidatesTokenCount"@, "candidates_token_count"@),
                cache_creation_input_tokens: 0,
                cache_read_input_tokens: u64_field(
                    o,
                    "cachedContentTokenCount"@,
                    "cached_content_token_count"@,
                ),
            }
        } else {
            Usage {
                input_tokens: 0,
                output_tokens: 0,
                cache_creation_input_tokens: 0,
                cache_read_input_tokens: 0,
            }
        },
        None => Usage {
            input_tokens: 0,
            output_tokens: 0,
            cache_creation_input_tokens: 0,
            cache_read_input_tokens: 0,
        },
    }
}

fn u64_field_exec(o: &Json, camel: &str, snake: &str) -> (r: u64)
    ensures
        r == u64_field(o@, camel@, snake@),
{
    match field_exec(o, camel, snake) {
        Some(Json::UInt(n)) => *n,
        _ => 0,
    }
}

pub fn usage_from_gemini(v: Option<&Json>) -> (r: Usage)
    ensures
        r == usage_from_gemini_spec(opt_json(v)),
{
    let o = match v {
        Some(o) => o,
        None => return Usage::zero(),
    };
    if !o.is_object() {
        return Usage::zero();
    }
    Usage {
        input_tokens: u64_field_exec(o, "promptTokenCount", "prompt_token_count"),
        output_tokens: u64_field_exec(o, "candidatesTokenCount", "candidates_token_count"),
        cache_creation_input_tokens: 0,
        cache_read_input_tokens: u64_field_exec(
            o,
            "cachedContentTokenCount",
            "cached_content_token_count",
        ),
    }
}

/// A Gemini `usageMetadata` object; `cachedContentTokenCount` only on a cache
/// hit. The total wraps as release builds' `+` does.
pub open spec fn gemini_usage_spec(u: Usage) -> JsonV {
    let o = JsonV::empty_object().set("promptTokenCount"@, JsonV::UInt(u.input_tokens)).set(
        "candidatesTokenCount"@,
        JsonV::UInt(u.output_tokens),
    ).set(
        "totalTokenCount"@,
        JsonV::UInt(vstd::wrapping::u64_specs::wrapping_add(u.input_tokens, u.output_tokens)),
    );
    if u.cache_read_input_tokens > 0 {
        o.set("cachedContentTokenCount"@, JsonV::UInt(u.cache_read_input_tokens))
    } else {
        o
    }
}

pub fn gemini_usage(u: &Usage) -> (r: Json)
    ensures
        r@ == gemini_usage_spec(*u),
{
    let o = Json::object().set("promptTokenCount", Json::uint(u.input_tokens)).set(
        "candidatesTokenCount",
        Json::uint(u.output_tokens),
    ).set("totalTokenCount", Json::uint(u.input_tokens.wrapping_add(u.output_tokens)));
    if u.cache_read_input_tokens > 0 {
        o.set("cachedContentTokenCount", Json::uint(u.cache_read_input_tokens))
    } else {
        o
    }
}

} // verus!
