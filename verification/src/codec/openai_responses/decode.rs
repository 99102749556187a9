//! Decoding a non-streaming OpenAI Responses response body into the IR.
use vstd::prelude::*;
use crate::codec::anthropic::parse::response_result_view;
use crate::codec::common::opt_get;
use crate::codec::openai_responses::parse::{
    function_call_to_block, function_call_to_block_spec, usage_from_responses,
    usage_from_responses_spec,
};
use crate::errors::{GatewayError, GatewayErrorV};
use crate::ir::{
    BlockV, ChatResponse, ChatResponseV, ContentBlock, StopReason, StopReasonV, blocks_view,
    lemma_blocks_view,
};
use crate::json::{Json, JsonV, lemma_view_items, str_or, view_items};
use crate::text::{concat, owned, str_eq};

verus! {

broadcast use vstd::string::group_string_axioms;

/// The texts of the summary parts, concatenated.
pub open spec fn summary_text(parts: Seq<JsonV>) -> Seq<char>
    decreases parts.len(),
{
    if parts.len() == 0 {
        Seq::empty()
    } else {
        summary_text(parts.drop_last()) + match parts.last().get_str("text"@) {
            Some(t) => t,
            None => Seq::empty(),
        }
    }
}

/// The reasoning summary of a `reasoning` item, `None` when it is empty or
/// the item has no summary array.
pub open spec fn reasoning_text_spec(item: JsonV) -> Option<Seq<char>> {
    match item.get_array("summary"@) {
        Some(parts) => if summary_text(parts).len() == 0 {
            None
        } else {
            Some(summary_text(parts))
        },
        None => None,
    }
}

/// The non-empty text parts of a message item, as text blocks.
pub open spec fn message_texts(parts: Seq<JsonV>) -> Seq<BlockV>
    decreases parts.len(),
{
    if parts.len() == 0 {
        Seq::empty()
    } else {
        let rest = message_texts(parts.drop_last());
        match parts.last().get_str("text"@) {
            Some(t) => if t.len() > 0 {
                rest.push(BlockV::Text { text: t })
            } else {
                rest
            },
            None => rest,
        }
    }
}

/// The blocks one output item contributes.
pub open spec fn output_item_blocks(item: JsonV) -> Seq<BlockV> {
    let t = item.get_str("type"@);
    if t == Some("message"@) {
        match item.get_array("content"@) {
            Some(parts) => message_texts(parts),
            None => Seq::empty(),
        }
    } else if t == Some("function_call"@) {
        seq![function_call_to_block_spec(item)]
    } else if t == Some("reasoning"@) {
        match reasoning_text_spec(item) {
            Some(text) => seq![BlockV::Thinking { text, signature: None }],
            None => Seq::empty(),
        }
    } else {
        Seq::empty()
    }
}

pub open spec fn output_blocks(items: Seq<JsonV>) -> Seq<BlockV>
    decreases items.len(),
{
    if items.len() == 0 {
        Seq::empty()
    } else {
        output_blocks(items.drop_last()) + output_item_blocks(items.last())
    }
}

/// Whether some output item is a `function_call`.
pub open spec fn saw_tool(items: Seq<JsonV>) -> bool {
    exists|i: int| 0 <= i < items.len() && (#[trigger] items[i]).get_str("type"@) == Some("function_call"@)
}

/// The stop reason a response's `status` gives: `incomplete` ran out of
/// tokens; `failed` is an error carried in a 200 body; else a tool call or a
/// clean end of turn.
pub open spec fn decode_stop_reason_spec(body: JsonV, tool: bool) -> StopReasonV {
    let status = body.get_str("status"@);
    if status == Some("incomplete"@) {
        StopReasonV::MaxTokens
    } else if status == Some("failed"@) {
        StopReasonV::Other(
            "error: "@ + str_or(
                match opt_get(body.get("error"@), "message"@) {
                    Some(m) => m.as_str(),
                    None => None,
                },
                "response failed"@,
            ),
        )
    } else if tool {
        StopReasonV::ToolUse
    } else {
        StopReasonV::EndTurn
    }
}

/// The IR response an OpenAI Responses response body spells.
pub open spec fn parse_response_spec(body: JsonV) -> Result<ChatResponseV, GatewayErrorV> {
    if body is Object {
        let items = match body.get_array("output"@) {
            Some(a) => a,
            None => Seq::empty(),
        };
        Ok(
            ChatResponseV {
                id: body.str_at("id"@),
                model: body.str_at("model"@),
                content: output_blocks(items),
                stop_reason: Some(decode_stop_reason_spec(body, saw_tool(items))),
                usage: usage_from_responses_spec(body.get("usage"@)),
            },
        )
    } else {
        Err(GatewayErrorV::InvalidJsonMessage("response body must be a JSON object"@))
    }
}

fn reasoning_text(item: &Json) -> (r: Option<String>)
    ensures
        match r {
            Some(t) => reasoning_text_spec(item@) == Some(t@),
            None => reasoning_text_spec(item@) is None,
        },
{
    let parts = match item.get_array("summary") {
        Some(p) => p,
        None => return None,
    };
    let ghost items = view_items(parts@);
    proof {
        lemma_view_items(parts@);
    }
    let mut text = String::new();
    let mut i: usize = 0;
    while i < parts.len()
        invariant
            i <= parts.len(),
            items == view_items(parts@),
            items.len() == parts.len(),
            forall|k: int| 0 <= k < parts.len() ==> #[trigger] items[k] == parts@[k]@,
            text@ == summary_text(items.take(i as int)),
        decreases parts.len() - i,
    {
        assert(items.take(i + 1).drop_last() =~= items.take(i as int));
        assert(items.take(i + 1).last() == parts@[i as int]@);
        match parts[i].get_str("text") {
            Some(t) => text.append(t.as_str()),
            None => {
                assert(text@ =~= text@ + Seq::<char>::empty());
            },
        }
        i = i + 1;
    }
    assert(items.take(parts.len() as int) =~= items);
    if text.as_str().is_empty() {
        None
    } else {
        Some(text)
    }
}

fn push_block(out: &mut Vec<ContentBlock>, b: ContentBlock)
    ensures
        blocks_view(final(out)@) == blocks_view(old(out)@).push(b@),
{
    let ghost prev = out@;
    out.push(b);
    proof {
        lemma_blocks_view(prev);
        lemma_blocks_view(out@);
        assert(blocks_view(out@) =~= blocks_view(prev).push(b@));
    }
}

fn message_item(item: &Json, out: &mut Vec<ContentBlock>)
    ensures
        blocks_view(final(out)@) == blocks_view(old(out)@) + match item@.get_array("content"@) {
            Some(parts) => message_texts(parts),
            None => Seq::empty(),
        },
{
    let parts = match item.get_array("content") {
        Some(p) => p,
        None => {
            assert(blocks_view(out@) =~= blocks_view(out@) + Seq::<BlockV>::empty());
            return;
        },
    };
    let ghost items = view_items(parts@);
    let ghost start = blocks_view(out@);
    proof {
        lemma_view_items(parts@);
    }
    let mut i: usize = 0;
    while i < parts.len()
        invariant
            i <= parts.len(),
            items == view_items(parts@),
            items.len() == parts.len(),
            forall|k: int| 0 <= k < parts.len() ==> #[trigger] items[k] == parts@[k]@,
            blocks_view(out@) == start + message_texts(items.take(i as int)),
        decreases parts.len() - i,
    {
        assert(items.take(i + 1).drop_last() =~= items.take(i as int));
        assert(items.take(i + 1).last() == parts@[i as int]@);
        match parts[i].get_str("text") {
            Some(t) => if !t.as_str().is_empty() {
                push_block(out, ContentBlock::Text { text: t.clone() });
                assert(blocks_view(out@) =~= start + message_texts(items.take(i + 1)));
            },
            None => {},
        }
        i = i + 1;
    }
    assert(items.take(parts.len() as int) =~= items);
}

fn type_is(item: &Json, t: &str) -> (r: bool)
    ensures
        r == (item@.get_str("type"@) == Some(t@)),
{
    match item.get_str("type") {
        Some(s) => str_eq(s.as_str(), t),
        None => false,
    }
}

fn decode_stop_reason(body: &Json, tool: bool) -> (r: StopReason)
    ensures
        r@ == decode_stop_reason_spec(body@, tool),
{
    if type_named(body, "status", "incomplete") {
        StopReason::MaxTokens
    } else if type_named(body, "status", "failed") {
        let message: String = match body.get("error") {
            Some(e) => match e.get_str("message") {
                Some(m) => m.clone(),
                None => owned("response failed"),
            },
            None => owned("response failed"),
        };
        StopReason::Other(concat("error: ", message.as_str()))
    } else if tool {
        StopReason::ToolUse
    } else {
        StopReason::EndTurn
    }
}

fn type_named(item: &Json, key: &str, t: &str) -> (r: bool)
    ensures
        r == (item@.get_str(key@) == Some(t@)),
{
    match item.get_str(key) {
        Some(s) => str_eq(s.as_str(), t),
        None => false,
    }
}

/// Outbound: an OpenAI Responses response body to the IR.
pub fn parse_response(body: Json) -> (r: Result<ChatResponse, GatewayError>)
    ensures
        response_result_view(r) == parse_response_spec(body@),
{
    if !body.is_object() {
        return Err(GatewayError::InvalidJsonMessage(owned("response body must be a JSON object")));
    }
    let empty: Vec<Json> = Vec::new();
    let output = match body.get_array("output") {
        Some(a) => a,
        None => &empty,
    };
    let ghost items = view_items(output@);
    proof {
        lemma_view_items(output@);
        assert(view_items(empty@) =~= Seq::<JsonV>::empty());
    }
    let mut content: Vec<ContentBlock> = Vec::new();
    let mut tool = false;
    let mut i: usize = 0;
    while i < output.len()
        invariant
            i <= output.len(),
            items == view_items(output@),
            items.len() == output.len(),
            forall|k: int| 0 <= k < output.len() ==> #[trigger] items[k] == output@[k]@,
            blocks_view(content@) == output_blocks(items.take(i as int)),
            tool == saw_tool(items.take(i as int)),
        decreases output.len() - i,
    {
        let ghost pre = items.take(i as int);
        assert(items.take(i + 1).drop_last() =~= pre);
        assert(items.take(i + 1).last() == output@[i as int]@);
        let item = &output[i];
        let ghost was = tool;
        proof {
            reveal_strlit("message");
            reveal_strlit("function_call");
            reveal_strlit("reasoning");
        }
        if type_is(item, "message") {
            assert("message"@.len() == 7);
            assert(!type_is_spec(items[i as int]));
            message_item(item, &mut content);
        } else if type_is(item, "function_call") {
            tool = true;
            push_block(&mut content, function_call_to_block(item));
            assert(seq![function_call_to_block_spec(item@)] =~= Seq::<BlockV>::empty().push(
                function_call_to_block_spec(item@),
            ));
        } else if type_is(item, "reasoning") {
            match reasoning_text(item) {
                Some(text) => {
                    push_block(&mut content, ContentBlock::Thinking { text, signature: None });
                },
                None => {
                    assert(blocks_view(content@) =~= blocks_view(content@) + Seq::<BlockV>::empty());
                },
            }
        } else {
            assert(blocks_view(content@) =~= blocks_view(content@) + Seq::<BlockV>::empty());
        }
        assert(blocks_view(content@) =~= output_blocks(items.take(i + 1)));
        assert(tool == (was || type_is_spec(items[i as int])));
        proof {
            lemma_saw_tool_step(items, i as int);
        }
        i = i + 1;
    }
    assert(items.take(output.len() as int) =~= items);
    let stop = decode_stop_reason(&body, tool);
    Ok(
        ChatResponse {
            id: body.str_at("id"),
            model: body.str_at("model"),
            content,
            stop_reason: Some(stop),
            usage: usage_from_responses(body.get("usage")),
        },
    )
}

spec fn type_is_spec(item: JsonV) -> bool {
    item.get_str("type"@) == Some("function_call"@)
}

proof fn lemma_saw_tool_step(items: Seq<JsonV>, i: int)
    requires
        0 <= i < items.len(),
    ensures
        saw_tool(items.take(i + 1)) == (saw_tool(items.take(i)) || type_is_spec(items[i])),
{
    let pre = items.take(i);
    let nxt = items.take(i + 1);
    if type_is_spec(items[i]) {
        assert(nxt[i] == items[i]);
    }
    if saw_tool(pre) {
        let w = choose|w: int| 0 <= w < pre.len() && (#[trigger] pre[w]).get_str("type"@) == Some(
            "function_call"@,
        );
        assert(nxt[w] == pre[w]);
    }
    if saw_tool(nxt) {
        let w = choose|w: int| 0 <= w < nxt.len() && (#[trigger] nxt[w]).get_str("type"@) == Some(
            "function_call"@,
        );
        if w < i {
            assert(pre[w] == nxt[w]);
        }
    }
}

} // verus!
