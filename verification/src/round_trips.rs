//! What each protocol's reader makes of what its writer wrote: the codecs'
//! parsers invert their renderers on the parts a client relies on.
use vstd::prelude::*;
use crate::codec::openai_chat::parse::{parse_request_spec, tool_choice_spec};
use crate::codec::openai_chat::render::{render_request_spec, tool_choice_to_openai_spec};
use crate::codec::anthropic::blocks::{
    block_from_anthropic_spec, block_to_anthropic_spec, blocks_from_anthropic_spec,
    blocks_to_anthropic_spec,
};
use crate::codec::anthropic::stream::{anthropic_events, anthropic_frame};
use crate::codec::gemini::stream::{GeminiParserV, function_call_spec, gemini_events, parts_spec};
use crate::codec::gemini::stream_render::{
    GeminiRendererV, args_of, chunk_doc, data_bytes, error_doc, gemini_frame,
};
use crate::ir::stop_to_gemini;
use crate::codec::gemini::common::{field, gemini_usage_spec, usage_from_gemini_spec};
use crate::codec::gemini::parse::{candidate_parts, first_candidate};
use crate::json::serde_text;
use crate::ir::{BlockV, ChatRequestV, StreamEventV, ToolChoiceV, Usage};
use crate::json::{JsonV, lemma_get_after_set};
use crate::codec::anthropic::blocks::tool_choice_to_anthropic_spec;
use crate::codec::anthropic::parse::tool_choice_spec as anthropic_tool_choice;
use crate::codec::openai_responses::parse::tool_choice_spec as responses_tool_choice;
use crate::codec::openai_responses::render::tool_choice_to_responses_spec;
use crate::codec::gemini::parse::tool_choice_spec as gemini_tool_choice;
use crate::codec::gemini::render::tool_choice_to_gemini_spec;
use crate::text::upper_seq;
use crate::codec::openai_chat::stream::{
    ChatParserV, chat_events, choice_spec, choices_spec, opt_str, slot_of, text_spec,
    tool_call_spec, tool_calls_spec, tool_position,
};
use crate::codec::common::opt_get;
use crate::codec::openai_chat::stream_render::{
    ChatRendererV, chat_frame, chunk_id, data_bytes as chat_data_bytes,
};
use crate::codec::openai_chat::render::obj1;
use crate::codec::anthropic::stream::frame_bytes as responses_frame_bytes;
use crate::codec::openai_responses::render::typed;
use crate::codec::openai_responses::render_stream::{
    ResponsesRendererV, added_item, into_item_spec, item_id_spec, responses_frame, with_index,
};
use crate::codec::openai_responses::stream::{
    ResponsesParserV, responses_events, stops as stops_of,
};
use crate::codec::openai_responses::render::responses_usage_spec;
use crate::codec::openai_responses::render_stream::zero_usage;
use crate::codec::openai_responses::parse::usage_from_responses_spec;
use crate::ir::{BlockStartV, ChatResponseV, StopReasonV, stop_from_openai};
use crate::codec::common::join_text_spec;
use crate::codec::openai_chat::parse::{
    parse_request_spec as chat_parse_request, tool_from_openai_spec, tools_spec as chat_tools_spec,
};
use crate::codec::openai_chat::render::{
    openai_tools, render_request_spec as chat_render_request, tool_to_openai_spec,
};
use crate::codec::anthropic::parse::{number_of, strings_of};
use crate::codec::anthropic::render::strings_json;
use crate::ir::{ToolDefV, stop_from_anthropic, stop_to_openai};
use crate::codec::openai_chat::render::openai_usage_spec;
use crate::codec::gemini::parse::{
    any_tool_use, parse_response_spec as gemini_parse_response, parts_blocks,
};
use crate::codec::gemini::render::{render_response_spec as gemini_render_response, response_parts};
use crate::codec::anthropic::parse::parse_response_spec as anthropic_parse_response;
use crate::codec::anthropic::render::render_response_spec as anthropic_render_response;
use crate::codec::gemini::parse::parse_request_spec as gemini_parse_request;
use crate::codec::gemini::render::{
    generation_config_spec, render_request_spec as gemini_render_request,
};
use crate::codec::openai_responses::decode::summary_text;
use crate::json::lemma_key_index;
use crate::codec::openai_responses::parse::parse_request_spec as responses_parse_request;
use crate::codec::openai_responses::render::{
    render_request_spec as responses_render_request, responses_tools,
};
use crate::codec::anthropic::parse::parse_request_spec as anthropic_parse_request;
use crate::codec::anthropic::render::{
    DEFAULT_MAX_TOKENS, render_request_spec as anthropic_render_request, thinking_budget, u64_or,
};
use crate::codec::openai_responses::decode::{
    message_texts, output_blocks, output_item_blocks, parse_response_spec as responses_parse_response,
    saw_tool,
};
use crate::codec::openai_responses::render::{
    render_response_spec as responses_render_response, response_items,
};
use crate::codec::openai_chat::parse::{
    first_choice, message_blocks, parse_response_spec as chat_parse_response,
};
use crate::codec::openai_chat::render::{
    render_response_spec as chat_render_response, thinking_text,
    tool_calls_json as chat_tool_calls_json,
};
use crate::codec::gemini::parts::{
    block_to_part_spec, normalize_args_spec, part_to_block_spec, surrogate_id_spec,
};

verus! {

/// Two texts differ when their lengths differ or they differ at `i`.
pub proof fn lemma_texts_differ(a: Seq<char>, b: Seq<char>, i: int)
    requires
        a.len() != b.len() || (0 <= i < a.len() && i < b.len() && a[i] != b[i]),
    ensures
        a != b,
{
    if a.len() == b.len() {
        assert(a[i] != b[i]);
    }
}

/// OpenAI Chat reads every tool choice back from the value it writes for it:
/// `auto`, `none` (no tools), `required`, or a named function; those three
/// words are the ones the OpenAI Chat API gives these choices.
pub proof fn law_openai_tool_choice_round_trip(tc: ToolChoiceV)
    ensures
        tool_choice_spec(tool_choice_to_openai_spec(tc)) == Some(tc),
        tool_choice_to_openai_spec(ToolChoiceV::NoTools) == JsonV::Str("none"@),
        tool_choice_to_openai_spec(ToolChoiceV::Required) == JsonV::Str("required"@),
        tool_choice_to_openai_spec(ToolChoiceV::Auto) == JsonV::Str("auto"@),
        tool_choice_spec(JsonV::Str("none"@)) == Some(ToolChoiceV::NoTools),
        tool_choice_spec(JsonV::Str("required"@)) == Some(ToolChoiceV::Required),
        tool_choice_spec(JsonV::Str("auto"@)) == Some(ToolChoiceV::Auto),
{
    broadcast use lemma_get_after_set;

    reveal_strlit("auto");
    reveal_strlit("none");
    reveal_strlit("required");
    reveal_strlit("function");
    reveal_strlit("type");
    reveal_strlit("name");
    assert("none"@[0] == 'n' && "auto"@[0] == 'a');
    lemma_texts_differ("none"@, "auto"@, 0);
    lemma_texts_differ("required"@, "auto"@, 0);
    lemma_texts_differ("required"@, "none"@, 0);
    lemma_texts_differ("function"@, "type"@, 0);
}

/// An IR request written as an OpenAI Chat body and read back keeps its tool
/// choice, whatever else it holds.
pub proof fn law_openai_request_keeps_tool_choice(r: ChatRequestV)
    ensures
        parse_request_spec(render_request_spec(r)) matches Ok(back) && back.tool_choice
            == r.tool_choice,
{
    broadcast use lemma_get_after_set;

    let k = "tool_choice"@;
    reveal_strlit("tool_choice");
    reveal_strlit("model");
    reveal_strlit("messages");
    reveal_strlit("tools");
    reveal_strlit("parallel_tool_calls");
    reveal_strlit("response_format");
    reveal_strlit("reasoning_effort");
    reveal_strlit("max_tokens");
    reveal_strlit("temperature");
    reveal_strlit("top_p");
    reveal_strlit("stop");
    reveal_strlit("stream");
    reveal_strlit("stream_options");
    lemma_texts_differ(k, "model"@, 0);
    lemma_texts_differ(k, "messages"@, 0);
    lemma_texts_differ(k, "tools"@, 0);
    lemma_texts_differ(k, "parallel_tool_calls"@, 0);
    lemma_texts_differ(k, "response_format"@, 0);
    lemma_texts_differ(k, "reasoning_effort"@, 0);
    lemma_texts_differ(k, "max_tokens"@, 0);
    lemma_texts_differ(k, "temperature"@, 1);
    lemma_texts_differ(k, "top_p"@, 0);
    lemma_texts_differ(k, "stop"@, 0);
    lemma_texts_differ(k, "stream"@, 0);
    lemma_texts_differ(k, "stream_options"@, 0);
    match r.tool_choice {
        Some(tc) => law_openai_tool_choice_round_trip(tc),
        None => {},
    }
}

/// Anthropic reads every tool choice back from the object it writes for it
/// (`auto`, `any`, `none`, or a named tool).
pub proof fn law_anthropic_tool_choice_round_trip(tc: ToolChoiceV)
    ensures
        anthropic_tool_choice(Some(tool_choice_to_anthropic_spec(tc))).0 == Some(tc),
{
    broadcast use lemma_get_after_set;

    reveal_strlit("auto");
    reveal_strlit("any");
    reveal_strlit("none");
    reveal_strlit("tool");
    reveal_strlit("type");
    reveal_strlit("name");
    lemma_texts_differ("any"@, "auto"@, 1);
    lemma_texts_differ("none"@, "auto"@, 0);
    lemma_texts_differ("none"@, "any"@, 0);
    lemma_texts_differ("tool"@, "auto"@, 0);
    lemma_texts_differ("tool"@, "any"@, 0);
    lemma_texts_differ("tool"@, "none"@, 0);
    lemma_texts_differ("type"@, "name"@, 0);
}

/// OpenAI Responses reads every tool choice back from the value it writes
/// for it.
pub proof fn law_responses_tool_choice_round_trip(tc: ToolChoiceV)
    ensures
        responses_tool_choice(tool_choice_to_responses_spec(tc)) == Some(tc),
{
    broadcast use lemma_get_after_set;

    reveal_strlit("auto");
    reveal_strlit("none");
    reveal_strlit("required");
    reveal_strlit("type");
    reveal_strlit("name");
    assert("none"@[0] == 'n' && "auto"@[0] == 'a');
    lemma_texts_differ("none"@, "auto"@, 0);
    lemma_texts_differ("required"@, "auto"@, 0);
    lemma_texts_differ("required"@, "none"@, 0);
    lemma_texts_differ("name"@, "type"@, 0);
}

/// Gemini reads every tool choice back from the calling config it writes for
/// it: AUTO, NONE, ANY, or ANY restricted to the named function.
pub proof fn law_gemini_tool_choice_round_trip(tc: ToolChoiceV)
    ensures
        ({
            let doc = tool_choice_to_gemini_spec(tc);
            doc.get("functionCallingConfig"@) matches Some(cfg) && gemini_tool_choice(cfg) == Some(
                tc,
            )
        }),
{
    broadcast use lemma_get_after_set;

    reveal_strlit("AUTO");
    reveal_strlit("NONE");
    reveal_strlit("ANY");
    reveal_strlit("mode");
    reveal_strlit("allowedFunctionNames");
    lemma_texts_differ("NONE"@, "AUTO"@, 0);
    lemma_texts_differ("ANY"@, "AUTO"@, 0);
    lemma_texts_differ("ANY"@, "NONE"@, 0);
    lemma_texts_differ("mode"@, "allowedFunctionNames"@, 0);
    assert(upper_seq("AUTO"@) =~= "AUTO"@);
    assert(upper_seq("NONE"@) =~= "NONE"@);
    assert(upper_seq("ANY"@) =~= "ANY"@);
}

/// The member names and block types an Anthropic content block is written
/// with are distinct texts.
proof fn lemma_block_words()
    ensures
        "type"@ != "text"@,
        "type"@ != "thinking"@,
        "type"@ != "signature"@,
        "type"@ != "id"@,
        "type"@ != "name"@,
        "type"@ != "input"@,
        "type"@ != "tool_use_id"@,
        "type"@ != "content"@,
        "type"@ != "is_error"@,
        "type"@ != "source"@,
        "type"@ != "media_type"@,
        "type"@ != "data"@,
        "type"@ != "url"@,
        "thinking"@ != "signature"@,
        "signature"@ != "thinking"@,
        "id"@ != "name"@,
        "id"@ != "input"@,
        "name"@ != "input"@,
        "tool_use_id"@ != "content"@,
        "tool_use_id"@ != "is_error"@,
        "content"@ != "is_error"@,
        "media_type"@ != "data"@,
        "text"@ != "thinking"@,
        "tool_use"@ != "text"@,
        "tool_use"@ != "thinking"@,
        "tool_result"@ != "text"@,
        "tool_result"@ != "thinking"@,
        "tool_result"@ != "tool_use"@,
        "image"@ != "text"@,
        "image"@ != "thinking"@,
        "image"@ != "tool_use"@,
        "image"@ != "tool_result"@,
        "url"@ != "base64"@,
{
    reveal_strlit("type");
    reveal_strlit("text");
    reveal_strlit("thinking");
    reveal_strlit("signature");
    reveal_strlit("id");
    reveal_strlit("name");
    reveal_strlit("input");
    reveal_strlit("tool_use_id");
    reveal_strlit("content");
    reveal_strlit("is_error");
    reveal_strlit("source");
    reveal_strlit("media_type");
    reveal_strlit("data");
    reveal_strlit("url");
    reveal_strlit("tool_use");
    reveal_strlit("tool_result");
    reveal_strlit("image");
    reveal_strlit("base64");
    lemma_texts_differ("type"@, "text"@, 1);
    lemma_texts_differ("type"@, "thinking"@, 0);
    lemma_texts_differ("type"@, "signature"@, 0);
    lemma_texts_differ("type"@, "id"@, 0);
    lemma_texts_differ("type"@, "name"@, 0);
    lemma_texts_differ("type"@, "input"@, 0);
    lemma_texts_differ("type"@, "tool_use_id"@, 0);
    lemma_texts_differ("type"@, "content"@, 0);
    lemma_texts_differ("type"@, "is_error"@, 0);
    lemma_texts_differ("type"@, "source"@, 0);
    lemma_texts_differ("type"@, "media_type"@, 0);
    lemma_texts_differ("type"@, "data"@, 0);
    lemma_texts_differ("type"@, "url"@, 0);
    lemma_texts_differ("thinking"@, "signature"@, 0);
    lemma_texts_differ("id"@, "name"@, 0);
    lemma_texts_differ("id"@, "input"@, 0);
    lemma_texts_differ("name"@, "input"@, 0);
    lemma_texts_differ("tool_use_id"@, "content"@, 0);
    lemma_texts_differ("tool_use_id"@, "is_error"@, 0);
    lemma_texts_differ("content"@, "is_error"@, 0);
    lemma_texts_differ("media_type"@, "data"@, 0);
    lemma_texts_differ("text"@, "thinking"@, 0);
    lemma_texts_differ("tool_use"@, "text"@, 0);
    lemma_texts_differ("tool_use"@, "thinking"@, 1);
    lemma_texts_differ("tool_result"@, "text"@, 0);
    lemma_texts_differ("tool_result"@, "thinking"@, 0);
    lemma_texts_differ("tool_result"@, "tool_use"@, 0);
    lemma_texts_differ("image"@, "text"@, 0);
    lemma_texts_differ("image"@, "thinking"@, 0);
    lemma_texts_differ("image"@, "tool_use"@, 0);
    lemma_texts_differ("image"@, "tool_result"@, 0);
    lemma_texts_differ("url"@, "base64"@, 0);
}

/// Reading an Anthropic content block written from any IR block gives back
/// that block: its text, its thinking and signature, a tool call's id, name
/// and input each in their own member, a tool result's id, content and error
/// flag, an image's source.
pub proof fn law_anthropic_block_round_trip(b: BlockV)
    ensures
        block_from_anthropic_spec(block_to_anthropic_spec(b)) == Some(b),
    decreases b,
{
    broadcast use lemma_get_after_set;

    lemma_block_words();
    match b {
        BlockV::ToolResult { tool_use_id, content, is_error } => {
            if content.len() == 1 && content[0] is Text {
                assert(content =~= seq![BlockV::Text { text: content[0]->Text_text }]);
            } else {
                law_anthropic_blocks_round_trip(content);
            }
        },
        _ => {},
    }
}

/// Reading Anthropic content blocks written from IR blocks gives back those
/// blocks, in order.
pub proof fn law_anthropic_blocks_round_trip(s: Seq<BlockV>)
    ensures
        blocks_from_anthropic_spec(blocks_to_anthropic_spec(s)) == s,
    decreases s,
{
    if s.len() > 0 {
        law_anthropic_blocks_round_trip(s.drop_last());
        law_anthropic_block_round_trip(s.last());
        let w = blocks_to_anthropic_spec(s);
        assert(w.drop_last() == blocks_to_anthropic_spec(s.drop_last()));
        assert(s.drop_last().push(s.last()) =~= s);
    } else {
        assert(blocks_to_anthropic_spec(s) =~= Seq::<JsonV>::empty());
    }
}

/// The names and member words of Anthropic stream frames are distinct texts.
proof fn lemma_stream_words()
    ensures
        "content_block_start"@ != "message_start"@,
        "content_block_delta"@ != "message_start"@,
        "content_block_delta"@ != "content_block_start"@,
        "content_block_stop"@ != "message_start"@,
        "content_block_stop"@ != "content_block_start"@,
        "content_block_stop"@ != "content_block_delta"@,
        "message_stop"@ != "message_start"@,
        "message_stop"@ != "content_block_start"@,
        "message_stop"@ != "content_block_delta"@,
        "message_stop"@ != "content_block_stop"@,
        "message_stop"@ != "message_delta"@,
        "index"@ != "delta"@,
        "index"@ != "content_block"@,
        "type"@ != "index"@,
        "type"@ != "delta"@,
        "type"@ != "content_block"@,
        "type"@ != "text"@,
        "type"@ != "thinking"@,
        "type"@ != "partial_json"@,
        "type"@ != "id"@,
        "type"@ != "name"@,
        "type"@ != "input"@,
        "id"@ != "name"@,
        "id"@ != "input"@,
        "name"@ != "input"@,
        "thinking_delta"@ != "text_delta"@,
        "input_json_delta"@ != "text_delta"@,
        "input_json_delta"@ != "thinking_delta"@,
        "thinking"@ != "tool_use"@,
        "text"@ != "tool_use"@,
        "text"@ != "thinking"@,
{
    reveal_strlit("content_block_start");
    reveal_strlit("content_block_delta");
    reveal_strlit("content_block_stop");
    reveal_strlit("message_start");
    reveal_strlit("message_stop");
    reveal_strlit("message_delta");
    reveal_strlit("index");
    reveal_strlit("delta");
    reveal_strlit("content_block");
    reveal_strlit("type");
    reveal_strlit("text");
    reveal_strlit("thinking");
    reveal_strlit("partial_json");
    reveal_strlit("id");
    reveal_strlit("name");
    reveal_strlit("input");
    reveal_strlit("thinking_delta");
    reveal_strlit("text_delta");
    reveal_strlit("input_json_delta");
    reveal_strlit("tool_use");
    lemma_texts_differ("content_block_start"@, "message_start"@, 0);
    lemma_texts_differ("content_block_delta"@, "message_start"@, 0);
    lemma_texts_differ("content_block_delta"@, "content_block_start"@, 14);
    lemma_texts_differ("content_block_stop"@, "message_start"@, 0);
    lemma_texts_differ("content_block_stop"@, "content_block_start"@, 0);
    lemma_texts_differ("content_block_stop"@, "content_block_delta"@, 0);
    lemma_texts_differ("message_stop"@, "message_start"@, 0);
    lemma_texts_differ("message_stop"@, "content_block_start"@, 0);
    lemma_texts_differ("message_stop"@, "content_block_delta"@, 0);
    lemma_texts_differ("message_stop"@, "content_block_stop"@, 0);
    lemma_texts_differ("message_stop"@, "message_delta"@, 0);
    lemma_texts_differ("index"@, "delta"@, 0);
    lemma_texts_differ("index"@, "content_block"@, 0);
    lemma_texts_differ("type"@, "index"@, 0);
    lemma_texts_differ("type"@, "delta"@, 0);
    lemma_texts_differ("type"@, "content_block"@, 0);
    lemma_texts_differ("type"@, "text"@, 1);
    lemma_texts_differ("type"@, "thinking"@, 0);
    lemma_texts_differ("type"@, "partial_json"@, 0);
    lemma_texts_differ("type"@, "id"@, 0);
    lemma_texts_differ("type"@, "name"@, 0);
    lemma_texts_differ("type"@, "input"@, 0);
    lemma_texts_differ("id"@, "name"@, 0);
    lemma_texts_differ("id"@, "input"@, 0);
    lemma_texts_differ("name"@, "input"@, 0);
    lemma_texts_differ("thinking_delta"@, "text_delta"@, 0);
    lemma_texts_differ("input_json_delta"@, "text_delta"@, 0);
    lemma_texts_differ("input_json_delta"@, "thinking_delta"@, 0);
    lemma_texts_differ("thinking"@, "tool_use"@, 1);
    lemma_texts_differ("text"@, "tool_use"@, 0);
    lemma_texts_differ("text"@, "thinking"@, 0);
}

/// The Anthropic stream parser reads back every content-block event the
/// Anthropic stream renderer writes: a frame written for a block start, a
/// text, thinking or tool-input delta, or a block stop, under the event name
/// and with the document the renderer writes for it, parses to exactly that
/// event, its index, text and partial JSON included; the message end
/// likewise.
pub proof fn law_anthropic_stream_round_trip(model: Seq<char>, e: StreamEventV, start: Usage)
    requires
        e is ContentBlockStart || e is TextDelta || e is ThinkingDelta || e is ToolUseInputDelta
            || e is ContentBlockStop || e is MessageStop,
    ensures
        ({
            let (kind, doc) = anthropic_frame(model, e);
            anthropic_events(kind, doc, start) == (seq![e], start)
        }),
{
    broadcast use lemma_get_after_set;

    lemma_stream_words();
    match e {
        StreamEventV::ContentBlockStart { index, block } => {
            assert((index as u64) as usize == index);
        },
        StreamEventV::TextDelta { index, text } => {
            assert((index as u64) as usize == index);
        },
        StreamEventV::ThinkingDelta { index, text } => {
            assert((index as u64) as usize == index);
        },
        StreamEventV::ToolUseInputDelta { index, partial_json } => {
            assert((index as u64) as usize == index);
        },
        StreamEventV::ContentBlockStop { index } => {
            assert((index as u64) as usize == index);
        },
        _ => {},
    }
}

/// The member names of a streamed Gemini chunk are distinct texts.
proof fn lemma_gemini_chunk_words()
    ensures
        "error"@ != "candidates"@,
        "usageMetadata"@ != "candidates"@,
        "usage_metadata"@ != "candidates"@,
        "content"@ != "index"@,
        "finishReason"@ != "content"@,
        "finishReason"@ != "index"@,
        "finish_reason"@ != "content"@,
        "finish_reason"@ != "index"@,
        "parts"@ != "role"@,
        "functionCall"@ != "text"@,
        "functionCall"@ != "thought"@,
        "function_call"@ != "text"@,
        "function_call"@ != "thought"@,
        "thought"@ != "text"@,
        "text"@ != "thought"@,
{
    reveal_strlit("error");
    reveal_strlit("candidates");
    reveal_strlit("usageMetadata");
    reveal_strlit("usage_metadata");
    reveal_strlit("content");
    reveal_strlit("index");
    reveal_strlit("finishReason");
    reveal_strlit("finish_reason");
    reveal_strlit("parts");
    reveal_strlit("role");
    reveal_strlit("functionCall");
    reveal_strlit("function_call");
    reveal_strlit("text");
    reveal_strlit("thought");
    assert("error"@.len() == 5 && "candidates"@.len() == 10);
    lemma_texts_differ("error"@, "candidates"@, 0);
    lemma_texts_differ("usageMetadata"@, "candidates"@, 0);
    lemma_texts_differ("usage_metadata"@, "candidates"@, 0);
    lemma_texts_differ("content"@, "index"@, 0);
    lemma_texts_differ("finishReason"@, "content"@, 0);
    lemma_texts_differ("finishReason"@, "index"@, 0);
    lemma_texts_differ("finish_reason"@, "content"@, 0);
    lemma_texts_differ("finish_reason"@, "index"@, 0);
    lemma_texts_differ("parts"@, "role"@, 0);
    lemma_texts_differ("functionCall"@, "text"@, 0);
    lemma_texts_differ("functionCall"@, "thought"@, 0);
    lemma_texts_differ("function_call"@, "text"@, 0);
    lemma_texts_differ("function_call"@, "thought"@, 0);
    lemma_texts_differ("thought"@, "text"@, 0);
}

/// What the Gemini stream parser makes of a document: its events end with
/// a thinking delta of `text` when `thought`, a text delta of it otherwise.
pub open spec fn ends_with_delta(events: Seq<StreamEventV>, text: Seq<char>, thought: bool) -> bool {
    events.len() > 0 && if thought {
        events.last() matches StreamEventV::ThinkingDelta { index: _, text: t } && t == text
    } else {
        events.last() matches StreamEventV::TextDelta { index: _, text: t } && t == text
    }
}

/// The Gemini stream parser reads back what the Gemini stream renderer
/// writes for streamed text: the frame for a thinking delta is the serde text
/// of a document that the parser, in any state, reads as a thinking delta of
/// the same text (the part is flagged as a thought), and the frame for a text
/// delta one it reads as a text delta of the same text.
pub proof fn law_gemini_stream_text_round_trip(r: GeminiRendererV, e: StreamEventV, p: GeminiParserV)
    requires
        e is TextDelta || e is ThinkingDelta,
    ensures
        exists|doc: JsonV|
            #[trigger] data_bytes(doc) == gemini_frame(r, e).0 && ends_with_delta(
                gemini_events(p, doc).0,
                match e {
                    StreamEventV::ThinkingDelta { index: _, text } => text,
                    StreamEventV::TextDelta { index: _, text } => text,
                    _ => Seq::empty(),
                },
                e is ThinkingDelta,
            ),
{
    broadcast use lemma_get_after_set;

    lemma_gemini_chunk_words();
    let (text, thought) = match e {
        StreamEventV::ThinkingDelta { index: _, text } => (text, true),
        StreamEventV::TextDelta { index: _, text } => (text, false),
        _ => (Seq::empty(), false),
    };
    let part = if thought {
        JsonV::empty_object().set("text"@, JsonV::Str(text)).set("thought"@, JsonV::Bool(true))
    } else {
        JsonV::empty_object().set("text"@, JsonV::Str(text))
    };
    let content = JsonV::empty_object().set("role"@, JsonV::Str("model"@)).set(
        "parts"@,
        JsonV::Array(seq![part]),
    );
    let c = JsonV::empty_object().set("content"@, content).set("index"@, JsonV::UInt(0));
    let doc = JsonV::empty_object().set("candidates"@, JsonV::Array(seq![c]));
    assert(data_bytes(doc) == gemini_frame(r, e).0);
    assert(seq![part].drop_last() =~= Seq::<JsonV>::empty());
    assert(ends_with_delta(gemini_events(p, doc).0, text, thought));
}

/// The member names of Gemini parts are distinct texts.
proof fn lemma_part_words()
    ensures
        "args"@ != "id"@,
        "args"@ != "name"@,
        "data"@ != "mimeType"@,
        "data"@ != "mime_type"@,
        "fileData"@ != "file_data"@,
        "fileData"@ != "functionCall"@,
        "fileData"@ != "functionResponse"@,
        "fileData"@ != "function_call"@,
        "fileData"@ != "function_response"@,
        "fileData"@ != "inlineData"@,
        "fileData"@ != "inline_data"@,
        "fileData"@ != "text"@,
        "fileData"@ != "thought"@,
        "fileUri"@ != "file_uri"@,
        "fileUri"@ != "mimeType"@,
        "file_data"@ != "functionCall"@,
        "file_data"@ != "inlineData"@,
        "file_data"@ != "text"@,
        "file_data"@ != "thought"@,
        "file_uri"@ != "mimeType"@,
        "functionCall"@ != "functionResponse"@,
        "functionCall"@ != "function_call"@,
        "functionCall"@ != "function_response"@,
        "functionCall"@ != "inlineData"@,
        "functionCall"@ != "inline_data"@,
        "functionCall"@ != "text"@,
        "functionCall"@ != "thought"@,
        "functionResponse"@ != "inlineData"@,
        "functionResponse"@ != "text"@,
        "functionResponse"@ != "thought"@,
        "function_call"@ != "inlineData"@,
        "function_call"@ != "text"@,
        "function_call"@ != "thought"@,
        "function_response"@ != "inlineData"@,
        "function_response"@ != "text"@,
        "function_response"@ != "thought"@,
        "id"@ != "name"@,
        "inlineData"@ != "inline_data"@,
        "inlineData"@ != "text"@,
        "inlineData"@ != "thought"@,
        "inline_data"@ != "text"@,
        "inline_data"@ != "thought"@,
        "mimeType"@ != "mime_type"@,
        "text"@ != "thought"@,
{
    reveal_strlit("args");
    reveal_strlit("data");
    reveal_strlit("fileData");
    reveal_strlit("fileUri");
    reveal_strlit("file_data");
    reveal_strlit("file_uri");
    reveal_strlit("functionCall");
    reveal_strlit("functionResponse");
    reveal_strlit("function_call");
    reveal_strlit("function_response");
    reveal_strlit("id");
    reveal_strlit("inlineData");
    reveal_strlit("inline_data");
    reveal_strlit("mimeType");
    reveal_strlit("mime_type");
    reveal_strlit("name");
    reveal_strlit("text");
    reveal_strlit("thought");
    assert("args"@.len() == 4 && "id"@.len() == 2);
    lemma_texts_differ("args"@, "id"@, 0);
    assert("args"@[0] == 'a' && "name"@[0] == 'n');
    lemma_texts_differ("args"@, "name"@, 0);
    assert("data"@.len() == 4 && "mimeType"@.len() == 8);
    lemma_texts_differ("data"@, "mimeType"@, 0);
    assert("data"@.len() == 4 && "mime_type"@.len() == 9);
    lemma_texts_differ("data"@, "mime_type"@, 0);
    assert("fileData"@.len() == 8 && "file_data"@.len() == 9);
    lemma_texts_differ("fileData"@, "file_data"@, 0);
    assert("fileData"@.len() == 8 && "functionCall"@.len() == 12);
    lemma_texts_differ("fileData"@, "functionCall"@, 0);
    assert("fileData"@.len() == 8 && "functionResponse"@.len() == 16);
    lemma_texts_differ("fileData"@, "functionResponse"@, 0);
    assert("fileData"@.len() == 8 && "function_call"@.len() == 13);
    lemma_texts_differ("fileData"@, "function_call"@, 0);
    assert("fileData"@.len() == 8 && "function_response"@.len() == 17);
    lemma_texts_differ("fileData"@, "function_response"@, 0);
    assert("fileData"@.len() == 8 && "inlineData"@.len() == 10);
    lemma_texts_differ("fileData"@, "inlineData"@, 0);
    assert("fileData"@.len() == 8 && "inline_data"@.len() == 11);
    lemma_texts_differ("fileData"@, "inline_data"@, 0);
    assert("fileData"@.len() == 8 && "text"@.len() == 4);
    lemma_texts_differ("fileData"@, "text"@, 0);
    assert("fileData"@.len() == 8 && "thought"@.len() == 7);
    lemma_texts_differ("fileData"@, "thought"@, 0);
    assert("fileUri"@.len() == 7 && "file_uri"@.len() == 8);
    lemma_texts_differ("fileUri"@, "file_uri"@, 0);
    assert("fileUri"@.len() == 7 && "mimeType"@.len() == 8);
    lemma_texts_differ("fileUri"@, "mimeType"@, 0);
    assert("file_data"@.len() == 9 && "functionCall"@.len() == 12);
    lemma_texts_differ("file_data"@, "functionCall"@, 0);
    assert("file_data"@.len() == 9 && "inlineData"@.len() == 10);
    lemma_texts_differ("file_data"@, "inlineData"@, 0);
    assert("file_data"@.len() == 9 && "text"@.len() == 4);
    lemma_texts_differ("file_data"@, "text"@, 0);
    assert("file_data"@.len() == 9 && "thought"@.len() == 7);
    lemma_texts_differ("file_data"@, "thought"@, 0);
    assert("file_uri"@[0] == 'f' && "mimeType"@[0] == 'm');
    lemma_texts_differ("file_uri"@, "mimeType"@, 0);
    assert("functionCall"@.len() == 12 && "functionResponse"@.len() == 16);
    lemma_texts_differ("functionCall"@, "functionResponse"@, 0);
    assert("functionCall"@.len() == 12 && "function_call"@.len() == 13);
    lemma_texts_differ("functionCall"@, "function_call"@, 0);
    assert("functionCall"@.len() == 12 && "function_response"@.len() == 17);
    lemma_texts_differ("functionCall"@, "function_response"@, 0);
    assert("functionCall"@.len() == 12 && "inlineData"@.len() == 10);
    lemma_texts_differ("functionCall"@, "inlineData"@, 0);
    assert("functionCall"@.len() == 12 && "inline_data"@.len() == 11);
    lemma_texts_differ("functionCall"@, "inline_data"@, 0);
    assert("functionCall"@.len() == 12 && "text"@.len() == 4);
    lemma_texts_differ("functionCall"@, "text"@, 0);
    assert("functionCall"@.len() == 12 && "thought"@.len() == 7);
    lemma_texts_differ("functionCall"@, "thought"@, 0);
    assert("functionResponse"@.len() == 16 && "inlineData"@.len() == 10);
    lemma_texts_differ("functionResponse"@, "inlineData"@, 0);
    assert("functionResponse"@.len() == 16 && "text"@.len() == 4);
    lemma_texts_differ("functionResponse"@, "text"@, 0);
    assert("functionResponse"@.len() == 16 && "thought"@.len() == 7);
    lemma_texts_differ("functionResponse"@, "thought"@, 0);
    assert("function_call"@.len() == 13 && "inlineData"@.len() == 10);
    lemma_texts_differ("function_call"@, "inlineData"@, 0);
    assert("function_call"@.len() == 13 && "text"@.len() == 4);
    lemma_texts_differ("function_call"@, "text"@, 0);
    assert("function_call"@.len() == 13 && "thought"@.len() == 7);
    lemma_texts_differ("function_call"@, "thought"@, 0);
    assert("function_response"@.len() == 17 && "inlineData"@.len() == 10);
    lemma_texts_differ("function_response"@, "inlineData"@, 0);
    assert("function_response"@.len() == 17 && "text"@.len() == 4);
    lemma_texts_differ("function_response"@, "text"@, 0);
    assert("function_response"@.len() == 17 && "thought"@.len() == 7);
    lemma_texts_differ("function_response"@, "thought"@, 0);
    assert("id"@.len() == 2 && "name"@.len() == 4);
    lemma_texts_differ("id"@, "name"@, 0);
    assert("inlineData"@.len() == 10 && "inline_data"@.len() == 11);
    lemma_texts_differ("inlineData"@, "inline_data"@, 0);
    assert("inlineData"@.len() == 10 && "text"@.len() == 4);
    lemma_texts_differ("inlineData"@, "text"@, 0);
    assert("inlineData"@.len() == 10 && "thought"@.len() == 7);
    lemma_texts_differ("inlineData"@, "thought"@, 0);
    assert("inline_data"@.len() == 11 && "text"@.len() == 4);
    lemma_texts_differ("inline_data"@, "text"@, 0);
    assert("inline_data"@.len() == 11 && "thought"@.len() == 7);
    lemma_texts_differ("inline_data"@, "thought"@, 0);
    assert("mimeType"@.len() == 8 && "mime_type"@.len() == 9);
    lemma_texts_differ("mimeType"@, "mime_type"@, 0);
    assert("text"@.len() == 4 && "thought"@.len() == 7);
    lemma_texts_differ("text"@, "thought"@, 0);
}

/// Gemini reads back the part it writes for a block: text as the same text,
/// a thought as a thought of the same text (Gemini keeps no signature),
/// inline and URI-referenced images as the same image, and a tool call as a
/// call of the same function with the arguments it sent; Gemini sends no call
/// id, so the id read back is the surrogate made from the name, the
/// arguments and the part's position.
pub proof fn law_gemini_part_round_trip(b: BlockV, ordinal: usize)
    requires
        !(b is ToolResult),
    ensures
        block_to_part_spec(b) matches Some(part) && part_to_block_spec(part, ordinal) == Some(
            match b {
                BlockV::Thinking { text, signature: _ } => BlockV::Thinking { text, signature: None },
                BlockV::ToolUse { id: _, name, input } => BlockV::ToolUse {
                    id: surrogate_id_spec(name, normalize_args_spec(input), ordinal),
                    name,
                    input: normalize_args_spec(input),
                },
                _ => b,
            },
        ),
{
    broadcast use lemma_get_after_set;

    lemma_part_words();
}


/// The member names of a streamed OpenAI Chat chunk are distinct texts.
proof fn lemma_chat_chunk_words()
    ensures
        "usage"@ != "choices"@,
        "usage"@ != "model"@,
        "usage"@ != "created"@,
        "usage"@ != "object"@,
        "usage"@ != "id"@,
        "error"@ != "choices"@,
        "error"@ != "model"@,
        "error"@ != "created"@,
        "error"@ != "object"@,
        "error"@ != "id"@,
        "delta"@ != "finish_reason"@,
        "content"@ != "reasoning_content"@,
        "content"@ != "tool_calls"@,
        "reasoning_content"@ != "tool_calls"@,
        "index"@ != "function"@,
        "index"@ != "id"@,
        "index"@ != "type"@,
        "id"@ != "function"@,
        "id"@ != "type"@,
        "name"@ != "arguments"@,
{
    reveal_strlit("usage");
    reveal_strlit("choices");
    reveal_strlit("model");
    reveal_strlit("created");
    reveal_strlit("object");
    reveal_strlit("id");
    reveal_strlit("error");
    reveal_strlit("delta");
    reveal_strlit("finish_reason");
    reveal_strlit("content");
    reveal_strlit("reasoning_content");
    reveal_strlit("tool_calls");
    reveal_strlit("index");
    reveal_strlit("function");
    reveal_strlit("type");
    reveal_strlit("name");
    reveal_strlit("arguments");
    assert("usage"@[0] == 'u' && "choices"@[0] == 'c' && "model"@[0] == 'm' && "created"@[0] == 'c'
        && "object"@[0] == 'o' && "id"@[0] == 'i' && "id"@[1] == 'd' && "error"@[0] == 'e');
    assert("delta"@[0] == 'd' && "finish_reason"@[0] == 'f' && "content"@[0] == 'c'
        && "reasoning_content"@[0] == 'r' && "tool_calls"@[0] == 't' && "index"@[0] == 'i'
        && "index"@[1] == 'n' && "function"@[0] == 'f' && "type"@[0] == 't' && "name"@[0] == 'n'
        && "arguments"@[0] == 'a');
    lemma_texts_differ("usage"@, "choices"@, 0);
    lemma_texts_differ("usage"@, "model"@, 0);
    lemma_texts_differ("usage"@, "created"@, 0);
    lemma_texts_differ("usage"@, "object"@, 0);
    lemma_texts_differ("usage"@, "id"@, 0);
    lemma_texts_differ("error"@, "choices"@, 0);
    lemma_texts_differ("error"@, "model"@, 0);
    lemma_texts_differ("error"@, "created"@, 0);
    lemma_texts_differ("error"@, "object"@, 0);
    lemma_texts_differ("error"@, "id"@, 0);
    lemma_texts_differ("delta"@, "finish_reason"@, 0);
    lemma_texts_differ("content"@, "reasoning_content"@, 0);
    lemma_texts_differ("content"@, "tool_calls"@, 0);
    lemma_texts_differ("reasoning_content"@, "tool_calls"@, 0);
    lemma_texts_differ("index"@, "function"@, 0);
    lemma_texts_differ("index"@, "id"@, 1);
    lemma_texts_differ("index"@, "type"@, 0);
    lemma_texts_differ("id"@, "function"@, 0);
    lemma_texts_differ("id"@, "type"@, 0);
    lemma_texts_differ("name"@, "arguments"@, 0);
}

/// What the OpenAI Chat stream parser must make of the chunk written for
/// `e`: its events end with the same kind of event carrying the same text,
/// partial JSON, or tool id and name (the parser numbers blocks itself).
pub open spec fn chat_reads_back(e: StreamEventV, events: Seq<StreamEventV>) -> bool {
    match e {
        StreamEventV::TextDelta { index: _, text } => ends_with_delta(events, text, false),
        StreamEventV::ThinkingDelta { index: _, text } => ends_with_delta(events, text, true),
        StreamEventV::ToolUseInputDelta { index: _, partial_json } => {
            &&& events.len() > 0
            &&& events.last() matches StreamEventV::ToolUseInputDelta { index: _, partial_json: p }
            &&& p == partial_json
        },
        StreamEventV::ContentBlockStart { index: _, block: BlockStartV::ToolUse { id, name } } => {
            &&& events.len() > 0
            &&& events.last() matches StreamEventV::ContentBlockStart {
                index: _,
                block: BlockStartV::ToolUse { id: i, name: n },
            }
            &&& i == id
            &&& n == name
        },
        _ => true,
    }
}

/// The OpenAI Chat stream parser reads back what the OpenAI Chat stream
/// renderer writes: the chunk for a text or reasoning delta reads as a text
/// or thinking delta of the same text, the chunk for a tool call's argument
/// text as an input delta of the same text, and the chunk opening a tool call
/// as the start of a tool-use block with the same id and name, whenever the
/// parser has not yet seen a call at the position the renderer gives it.
/// (Empty text and empty argument text carry nothing and are not read back.)
#[verifier::rlimit(60)]
#[verifier::spinoff_prover]
pub proof fn law_chat_stream_round_trip(r: ChatRendererV, e: StreamEventV, p: ChatParserV)
    requires
        match e {
            StreamEventV::TextDelta { index: _, text } => text.len() > 0,
            StreamEventV::ThinkingDelta { index: _, text } => text.len() > 0,
            StreamEventV::ToolUseInputDelta { index: _, partial_json } => partial_json.len() > 0,
            StreamEventV::ContentBlockStart { index: _, block: BlockStartV::ToolUse { id: _, name: _ } } =>
                slot_of(p.tool_slots, r.next_tool as u64) is None,
            _ => false,
        },
    ensures
        exists|doc: JsonV|
            #[trigger] chat_data_bytes(doc) == chat_frame(r, e).0 && chat_reads_back(
                e,
                chat_events(p, doc).0,
            ),
{
    broadcast use lemma_get_after_set;

    lemma_chat_chunk_words();
    let head = JsonV::empty_object().set("id"@, JsonV::Str(chunk_id(r))).set(
        "object"@,
        JsonV::Str("chat.completion.chunk"@),
    ).set("created"@, JsonV::UInt(0)).set("model"@, JsonV::Str(r.model));
    let delta = match e {
        StreamEventV::TextDelta { index: _, text } => obj1("content"@, JsonV::Str(text)),
        StreamEventV::ThinkingDelta { index: _, text } => obj1(
            "reasoning_content"@,
            JsonV::Str(text),
        ),
        StreamEventV::ToolUseInputDelta { index, partial_json } => {
            let j: usize = if r.tool_index.contains_key(index) { r.tool_index[index] } else { 0 };
            obj1(
                "tool_calls"@,
                JsonV::Array(
                    seq![
                        obj1("index"@, JsonV::UInt(j as u64)).set(
                            "function"@,
                            obj1("arguments"@, JsonV::Str(partial_json)),
                        ),
                    ],
                ),
            )
        },
        StreamEventV::ContentBlockStart { index: _, block: BlockStartV::ToolUse { id, name } } => obj1(
            "tool_calls"@,
            JsonV::Array(
                seq![
                    obj1("index"@, JsonV::UInt(r.next_tool as u64)).set("id"@, JsonV::Str(id)).set(
                        "type"@,
                        JsonV::Str("function"@),
                    ).set(
                        "function"@,
                        obj1("name"@, JsonV::Str(name)).set("arguments"@, JsonV::Str(""@)),
                    ),
                ],
            ),
        ),
        _ => JsonV::empty_object(),
    };
    let c = JsonV::empty_object().set("index"@, JsonV::UInt(0)).set("delta"@, delta).set(
        "finish_reason"@,
        JsonV::Null,
    );
    let doc = head.set("choices"@, JsonV::Array(seq![c]));
    assert(chat_data_bytes(doc) == chat_frame(r, e).0);
    assert(seq![c].drop_last() =~= Seq::<JsonV>::empty());
    match delta.get("tool_calls"@) {
        Some(JsonV::Array(tcs)) => {
            assert(tcs.drop_last() =~= Seq::<JsonV>::empty());
        },
        _ => {},
    }
    assert(doc.get("usage"@) is None);
    assert(doc.get("error"@) is None);
    assert(doc.get_array("choices"@) == Some(seq![c]));
    assert(c.get("delta"@) == Some(delta));
    assert(c.get_str("finish_reason"@) is None);
    let s2 = ChatParserV { started: true, ..p };
    let (ce, cs) = choice_spec(s2, c);
    assert(seq![c].drop_last() =~= Seq::<JsonV>::empty());
    assert(seq![c].last() == c);
    assert(choices_spec(s2, Seq::<JsonV>::empty()) == (Seq::<StreamEventV>::empty(), s2));
    assert(choices_spec(s2, seq![c]).0 == Seq::<StreamEventV>::empty() + ce);
    let (e1, t1) = text_spec(s2, opt_str(opt_get(Some(delta), "content"@)), false);
    let (e2, t2) = text_spec(t1, opt_str(opt_get(Some(delta), "reasoning_content"@)), true);
    match e {
        StreamEventV::TextDelta { index: _, text } => {
            assert(opt_get(Some(delta), "tool_calls"@) is None);
            assert(e2.len() == 0);
            assert(ends_with_delta(e1, text, false));
            assert(ce == e1 + e2 + Seq::<StreamEventV>::empty());
        },
        StreamEventV::ThinkingDelta { index: _, text } => {
            assert(opt_get(Some(delta), "tool_calls"@) is None);
            assert(e1.len() == 0);
            assert(ends_with_delta(e2, text, true));
            assert(ce == e1 + e2 + Seq::<StreamEventV>::empty());
        },
        _ => {
            assert(e1.len() == 0);
            assert(e2.len() == 0);
            assert(t2 == s2);
            let tcs = delta.get_array("tool_calls"@).unwrap();
            assert(tcs.len() == 1);
            assert(tcs.drop_last() =~= Seq::<JsonV>::empty());
            assert(tool_calls_spec(s2, Seq::<JsonV>::empty()) == (Seq::<StreamEventV>::empty(), s2));
            let (e3, t3) = tool_call_spec(s2, tcs[0]);
            assert(tool_calls_spec(s2, tcs).0 == Seq::<StreamEventV>::empty() + e3);
            let tc = tcs[0];
            let func = tc.get("function"@);
            match e {
                StreamEventV::ToolUseInputDelta { index: _, partial_json } => {
                    assert(opt_get(func, "arguments"@) == Some(JsonV::Str(partial_json)));
                },
                _ => {
                    reveal_strlit("");
                    assert(""@.len() == 0);
                    assert(tool_position(tc) == r.next_tool as u64);
                    assert(opt_get(func, "arguments"@) == Some(JsonV::Str(""@)));
                },
            }
            assert(chat_reads_back(e, e3));
            assert(ce == e1 + e2 + (Seq::<StreamEventV>::empty() + e3));
        },
    }
    let start: Seq<StreamEventV> = if p.started {
        Seq::empty()
    } else {
        seq![StreamEventV::MessageStart { id: doc.str_at("id"@), model: doc.str_at("model"@) }]
    };
    assert(chat_events(p, doc).0 == start + (Seq::<StreamEventV>::empty() + ce));
    assert(chat_reads_back(e, ce));
    assert(chat_reads_back(e, chat_events(p, doc).0));
}


/// The event types and member names of Responses stream frames are
/// distinct texts.
proof fn lemma_responses_stream_words()
    ensures
        "response.created"@ != "response.output_item.added"@,
        "response.created"@ != "response.content_part.added"@,
        "response.created"@ != "response.output_text.delta"@,
        "response.created"@ != "response.reasoning_summary_text.delta"@,
        "response.created"@ != "response.reasoning_text.delta"@,
        "response.created"@ != "response.function_call_arguments.delta"@,
        "response.created"@ != "response.output_item.done"@,
        "response.output_item.added"@ != "response.content_part.added"@,
        "response.output_item.added"@ != "response.output_text.delta"@,
        "response.output_item.added"@ != "response.reasoning_summary_text.delta"@,
        "response.output_item.added"@ != "response.reasoning_text.delta"@,
        "response.output_item.added"@ != "response.function_call_arguments.delta"@,
        "response.output_item.added"@ != "response.output_item.done"@,
        "response.content_part.added"@ != "response.output_text.delta"@,
        "response.content_part.added"@ != "response.reasoning_summary_text.delta"@,
        "response.content_part.added"@ != "response.reasoning_text.delta"@,
        "response.content_part.added"@ != "response.function_call_arguments.delta"@,
        "response.content_part.added"@ != "response.output_item.done"@,
        "response.output_text.delta"@ != "response.reasoning_summary_text.delta"@,
        "response.output_text.delta"@ != "response.reasoning_text.delta"@,
        "response.output_text.delta"@ != "response.function_call_arguments.delta"@,
        "response.output_text.delta"@ != "response.output_item.done"@,
        "response.reasoning_summary_text.delta"@ != "response.reasoning_text.delta"@,
        "response.reasoning_summary_text.delta"@ != "response.function_call_arguments.delta"@,
        "response.reasoning_summary_text.delta"@ != "response.output_item.done"@,
        "response.reasoning_text.delta"@ != "response.function_call_arguments.delta"@,
        "response.reasoning_text.delta"@ != "response.output_item.done"@,
        "response.function_call_arguments.delta"@ != "response.output_item.done"@,
        "type"@ != "item_id"@,
        "type"@ != "output_index"@,
        "type"@ != "content_index"@,
        "type"@ != "delta"@,
        "type"@ != "item"@,
        "output_index"@ != "content_index"@,
        "output_index"@ != "delta"@,
        "output_index"@ != "item"@,
        "type"@ != "id"@,
        "type"@ != "call_id"@,
        "type"@ != "name"@,
        "type"@ != "arguments"@,
        "type"@ != "summary"@,
        "call_id"@ != "name"@,
        "call_id"@ != "arguments"@,
        "name"@ != "arguments"@,
        "reasoning"@ != "function_call"@,
{
    reveal_strlit("arguments");
    reveal_strlit("call_id");
    reveal_strlit("content_index");
    reveal_strlit("delta");
    reveal_strlit("function_call");
    reveal_strlit("id");
    reveal_strlit("item");
    reveal_strlit("item_id");
    reveal_strlit("name");
    reveal_strlit("output_index");
    reveal_strlit("reasoning");
    reveal_strlit("response.content_part.added");
    reveal_strlit("response.created");
    reveal_strlit("response.function_call_arguments.delta");
    reveal_strlit("response.output_item.added");
    reveal_strlit("response.output_item.done");
    reveal_strlit("response.output_text.delta");
    reveal_strlit("response.reasoning_summary_text.delta");
    reveal_strlit("response.reasoning_text.delta");
    reveal_strlit("summary");
    reveal_strlit("type");
    assert("arguments"@.len() == 9);
    assert("call_id"@.len() == 7);
    assert("content_index"@.len() == 13);
    assert("delta"@.len() == 5);
    assert("function_call"@.len() == 13);
    assert("id"@.len() == 2);
    assert("item"@.len() == 4);
    assert("item_id"@.len() == 7);
    assert("name"@.len() == 4);
    assert("output_index"@.len() == 12);
    assert("reasoning"@.len() == 9);
    assert("response.content_part.added"@.len() == 27);
    assert("response.created"@.len() == 16);
    assert("response.function_call_arguments.delta"@.len() == 38);
    assert("response.output_item.added"@.len() == 26);
    assert("response.output_item.done"@.len() == 25);
    assert("response.output_text.delta"@.len() == 26);
    assert("response.reasoning_summary_text.delta"@.len() == 37);
    assert("response.reasoning_text.delta"@.len() == 29);
    assert("summary"@.len() == 7);
    assert("type"@.len() == 4);
    lemma_texts_differ("response.created"@, "response.output_item.added"@, 0);
    lemma_texts_differ("response.created"@, "response.content_part.added"@, 0);
    lemma_texts_differ("response.created"@, "response.output_text.delta"@, 0);
    lemma_texts_differ("response.created"@, "response.reasoning_summary_text.delta"@, 0);
    lemma_texts_differ("response.created"@, "response.reasoning_text.delta"@, 0);
    lemma_texts_differ("response.created"@, "response.function_call_arguments.delta"@, 0);
    lemma_texts_differ("response.created"@, "response.output_item.done"@, 0);
    lemma_texts_differ("response.output_item.added"@, "response.content_part.added"@, 0);
    assert("response.output_item.added"@[16] == 'i' && "response.output_text.delta"@[16] == 't');
    lemma_texts_differ("response.output_item.added"@, "response.output_text.delta"@, 16);
    lemma_texts_differ("response.output_item.added"@, "response.reasoning_summary_text.delta"@, 0);
    lemma_texts_differ("response.output_item.added"@, "response.reasoning_text.delta"@, 0);
    lemma_texts_differ("response.output_item.added"@, "response.function_call_arguments.delta"@, 0);
    lemma_texts_differ("response.output_item.added"@, "response.output_item.done"@, 0);
    lemma_texts_differ("response.content_part.added"@, "response.output_text.delta"@, 0);
    lemma_texts_differ("response.content_part.added"@, "response.reasoning_summary_text.delta"@, 0);
    lemma_texts_differ("response.content_part.added"@, "response.reasoning_text.delta"@, 0);
    lemma_texts_differ("response.content_part.added"@, "response.function_call_arguments.delta"@, 0);
    lemma_texts_differ("response.content_part.added"@, "response.output_item.done"@, 0);
    lemma_texts_differ("response.output_text.delta"@, "response.reasoning_summary_text.delta"@, 0);
    lemma_texts_differ("response.output_text.delta"@, "response.reasoning_text.delta"@, 0);
    lemma_texts_differ("response.output_text.delta"@, "response.function_call_arguments.delta"@, 0);
    lemma_texts_differ("response.output_text.delta"@, "response.output_item.done"@, 0);
    lemma_texts_differ("response.reasoning_summary_text.delta"@, "response.reasoning_text.delta"@, 0);
    lemma_texts_differ("response.reasoning_summary_text.delta"@, "response.function_call_arguments.delta"@, 0);
    lemma_texts_differ("response.reasoning_summary_text.delta"@, "response.output_item.done"@, 0);
    lemma_texts_differ("response.reasoning_text.delta"@, "response.function_call_arguments.delta"@, 0);
    lemma_texts_differ("response.reasoning_text.delta"@, "response.output_item.done"@, 0);
    lemma_texts_differ("response.function_call_arguments.delta"@, "response.output_item.done"@, 0);
    lemma_texts_differ("type"@, "item_id"@, 0);
    lemma_texts_differ("type"@, "output_index"@, 0);
    lemma_texts_differ("type"@, "content_index"@, 0);
    lemma_texts_differ("type"@, "delta"@, 0);
    assert("type"@[0] == 't' && "item"@[0] == 'i');
    lemma_texts_differ("type"@, "item"@, 0);
    lemma_texts_differ("output_index"@, "content_index"@, 0);
    lemma_texts_differ("output_index"@, "delta"@, 0);
    lemma_texts_differ("output_index"@, "item"@, 0);
    lemma_texts_differ("type"@, "id"@, 0);
    lemma_texts_differ("type"@, "call_id"@, 0);
    assert("type"@[0] == 't' && "name"@[0] == 'n');
    lemma_texts_differ("type"@, "name"@, 0);
    lemma_texts_differ("type"@, "arguments"@, 0);
    lemma_texts_differ("type"@, "summary"@, 0);
    lemma_texts_differ("call_id"@, "name"@, 0);
    lemma_texts_differ("call_id"@, "arguments"@, 0);
    lemma_texts_differ("name"@, "arguments"@, 0);
    lemma_texts_differ("reasoning"@, "function_call"@, 0);
}

/// The OpenAI Responses stream parser reads back what the OpenAI Responses
/// stream renderer writes: the frame for a text, reasoning or argument-text
/// delta parses to exactly that event, its output index and text included,
/// and leaves the parser as it was; the frame opening a reasoning item or a
/// function call parses to exactly that block start, the call's id and name
/// included; the frame closing an item the parser holds open parses to
/// exactly that block stop.
pub proof fn law_responses_stream_round_trip(r: ResponsesRendererV, e: StreamEventV, p: ResponsesParserV)
    requires
        match e {
            StreamEventV::TextDelta { .. } => true,
            StreamEventV::ThinkingDelta { .. } => true,
            StreamEventV::ToolUseInputDelta { .. } => true,
            StreamEventV::ContentBlockStart { index: _, block } => !(block is Text),
            StreamEventV::ContentBlockStop { index } => p.opened.contains(index),
            _ => false,
        },
    ensures
        exists|name: Seq<char>, doc: JsonV|
            #[trigger] responses_frame_bytes((name, doc)) == responses_frame(r, e).0
                && responses_events(p, doc).0 == seq![e] && (e is TextDelta || e is ThinkingDelta
                || e is ToolUseInputDelta ==> responses_events(p, doc).1 == p),
{
    broadcast use lemma_get_after_set;

    lemma_responses_stream_words();
    let (name, doc) = match e {
        StreamEventV::TextDelta { index, text } => {
            let t = "response.output_text.delta"@;
            (
                t,
                typed(t).set("item_id"@, JsonV::Str(item_id_spec(index))).set(
                    "output_index"@,
                    JsonV::UInt(index as u64),
                ).set("content_index"@, JsonV::UInt(0)).set("delta"@, JsonV::Str(text)),
            )
        },
        StreamEventV::ThinkingDelta { index, text } => {
            let t = "response.reasoning_summary_text.delta"@;
            (
                t,
                typed(t).set("item_id"@, JsonV::Str(item_id_spec(index))).set(
                    "output_index"@,
                    JsonV::UInt(index as u64),
                ).set("delta"@, JsonV::Str(text)),
            )
        },
        StreamEventV::ToolUseInputDelta { index, partial_json } => {
            let t = "response.function_call_arguments.delta"@;
            (
                t,
                typed(t).set("item_id"@, JsonV::Str(item_id_spec(index))).set(
                    "output_index"@,
                    JsonV::UInt(index as u64),
                ).set("delta"@, JsonV::Str(partial_json)),
            )
        },
        StreamEventV::ContentBlockStart { index, block } => {
            let t = "response.output_item.added"@;
            (t, with_index(t, index).set("item"@, added_item(index, block)))
        },
        StreamEventV::ContentBlockStop { index } => {
            let t = "response.output_item.done"@;
            (
                t,
                with_index(t, index).set(
                    "item"@,
                    if r.items.contains_key(index) {
                        into_item_spec(r.items[index], item_id_spec(index))
                    } else {
                        JsonV::Null
                    },
                ),
            )
        },
        _ => (Seq::empty(), JsonV::Null),
    };
    assert(responses_frame_bytes((name, doc)) == responses_frame(r, e).0);
    match e {
        StreamEventV::TextDelta { index, text } => {
            assert((index as u64) as usize == index);
        },
        StreamEventV::ThinkingDelta { index, text } => {
            assert((index as u64) as usize == index);
        },
        StreamEventV::ToolUseInputDelta { index, partial_json } => {
            assert((index as u64) as usize == index);
        },
        StreamEventV::ContentBlockStart { index, block } => {
            assert((index as u64) as usize == index);
        },
        StreamEventV::ContentBlockStop { index } => {
            assert((index as u64) as usize == index);
        },
        _ => {},
    }
    assert(responses_events(p, doc).0 == seq![e]);
}


/// The member names and item types a Responses text block starts with are
/// distinct texts.
proof fn lemma_responses_text_start_words()
    ensures
        "message"@ != "function_call"@,
        "message"@ != "reasoning"@,
        "type"@ != "part"@,
        "type"@ != "role"@,
        "type"@ != "content"@,
        "type"@ != "text"@,
        "output_index"@ != "part"@,
{
    reveal_strlit("message");
    reveal_strlit("function_call");
    reveal_strlit("reasoning");
    reveal_strlit("type");
    reveal_strlit("part");
    reveal_strlit("role");
    reveal_strlit("content");
    reveal_strlit("text");
    reveal_strlit("output_index");
    assert("message"@[0] == 'm' && "function_call"@[0] == 'f' && "reasoning"@[0] == 'r');
    assert("type"@[0] == 't' && "part"@[0] == 'p' && "role"@[0] == 'r' && "content"@[0] == 'c');
    assert("type"@[1] == 'y' && "text"@[1] == 'e' && "output_index"@[0] == 'o');
    lemma_texts_differ("message"@, "function_call"@, 0);
    lemma_texts_differ("message"@, "reasoning"@, 0);
    lemma_texts_differ("type"@, "part"@, 0);
    lemma_texts_differ("type"@, "role"@, 0);
    lemma_texts_differ("type"@, "content"@, 0);
    lemma_texts_differ("type"@, "text"@, 1);
    lemma_texts_differ("output_index"@, "part"@, 0);
}

/// The OpenAI Responses stream parser reads back the start of a text block:
/// of the two frames the renderer writes for it, the message item adds no
/// event and leaves the parser as it was, and the output-text part opens
/// exactly that text block, at its output index, unless the parser holds
/// that block open already.
pub proof fn law_responses_text_start_round_trip(r: ResponsesRendererV, index: usize, p: ResponsesParserV)
    requires
        !p.opened.contains(index),
    ensures
        exists|item: JsonV, part: JsonV|
            #![trigger responses_events(p, item), responses_events(p, part)]
            responses_frame_bytes(("response.output_item.added"@, item)) + responses_frame_bytes(
                ("response.content_part.added"@, part),
            ) == responses_frame(
                r,
                StreamEventV::ContentBlockStart { index, block: BlockStartV::Text },
            ).0 && responses_events(p, item) == (Seq::<StreamEventV>::empty(), p) && responses_events(
                p,
                part,
            ).0 == seq![StreamEventV::ContentBlockStart { index, block: BlockStartV::Text }],
{
    broadcast use lemma_get_after_set;

    lemma_responses_stream_words();
    lemma_responses_text_start_words();
    let added = "response.output_item.added"@;
    let cpa = "response.content_part.added"@;
    let item = with_index(added, index).set("item"@, added_item(index, BlockStartV::Text));
    let part = typed(cpa).set("item_id"@, JsonV::Str(item_id_spec(index))).set(
        "output_index"@,
        JsonV::UInt(index as u64),
    ).set("content_index"@, JsonV::UInt(0)).set(
        "part"@,
        typed("output_text"@).set("text"@, JsonV::Str(""@)),
    );
    assert((index as u64) as usize == index);
    assert(responses_frame_bytes((added, item)) + responses_frame_bytes((cpa, part))
        == responses_frame(r, StreamEventV::ContentBlockStart { index, block: BlockStartV::Text }).0);
    assert(responses_events(p, item) == (Seq::<StreamEventV>::empty(), p));
    assert(responses_events(p, part).0 == seq![
        StreamEventV::ContentBlockStart { index, block: BlockStartV::Text },
    ]);
}


/// The member names of an OpenAI Chat response body and its finish
/// reasons are distinct texts.
proof fn lemma_chat_response_words()
    ensures
        "id"@ != "usage"@,
        "id"@ != "choices"@,
        "id"@ != "model"@,
        "id"@ != "created"@,
        "id"@ != "object"@,
        "model"@ != "usage"@,
        "model"@ != "choices"@,
        "choices"@ != "usage"@,
        "message"@ != "finish_reason"@,
        "reasoning_content"@ != "content"@,
        "reasoning_content"@ != "role"@,
        "content"@ != "role"@,
        "content"@ != "tool_calls"@,
        "content"@ != "reasoning_content"@,
        "tool_calls"@ != "reasoning_content"@,
        "tool_calls"@ != "content"@,
        "tool_calls"@ != "role"@,
        "prompt_tokens"@ != "completion_tokens"@,
        "prompt_tokens"@ != "total_tokens"@,
        "prompt_tokens"@ != "prompt_tokens_details"@,
        "completion_tokens"@ != "total_tokens"@,
        "completion_tokens"@ != "prompt_tokens_details"@,
        "prompt_tokens_details"@ != "total_tokens"@,
        "prompt_tokens_details"@ != "completion_tokens"@,
        "prompt_tokens_details"@ != "prompt_tokens"@,
        "length"@ != "stop"@,
        "tool_calls"@ != "stop"@,
        "tool_calls"@ != "length"@,
        "content_filter"@ != "stop"@,
        "content_filter"@ != "length"@,
        "content_filter"@ != "tool_calls"@,
        "content_filter"@ != "function_call"@,
{
    reveal_strlit("choices");
    reveal_strlit("completion_tokens");
    reveal_strlit("content");
    reveal_strlit("content_filter");
    reveal_strlit("created");
    reveal_strlit("finish_reason");
    reveal_strlit("function_call");
    reveal_strlit("id");
    reveal_strlit("length");
    reveal_strlit("message");
    reveal_strlit("model");
    reveal_strlit("object");
    reveal_strlit("prompt_tokens");
    reveal_strlit("prompt_tokens_details");
    reveal_strlit("reasoning_content");
    reveal_strlit("role");
    reveal_strlit("stop");
    reveal_strlit("tool_calls");
    reveal_strlit("total_tokens");
    reveal_strlit("usage");
    assert("choices"@.len() == 7);
    assert("completion_tokens"@.len() == 17);
    assert("content"@.len() == 7);
    assert("content_filter"@.len() == 14);
    assert("created"@.len() == 7);
    assert("finish_reason"@.len() == 13);
    assert("function_call"@.len() == 13);
    assert("id"@.len() == 2);
    assert("length"@.len() == 6);
    assert("message"@.len() == 7);
    assert("model"@.len() == 5);
    assert("object"@.len() == 6);
    assert("prompt_tokens"@.len() == 13);
    assert("prompt_tokens_details"@.len() == 21);
    assert("reasoning_content"@.len() == 17);
    assert("role"@.len() == 4);
    assert("stop"@.len() == 4);
    assert("tool_calls"@.len() == 10);
    assert("total_tokens"@.len() == 12);
    assert("usage"@.len() == 5);
    lemma_texts_differ("id"@, "usage"@, 0);
    lemma_texts_differ("id"@, "choices"@, 0);
    lemma_texts_differ("id"@, "model"@, 0);
    lemma_texts_differ("id"@, "created"@, 0);
    lemma_texts_differ("id"@, "object"@, 0);
    assert("model"@[0] == 'm' && "usage"@[0] == 'u');
    lemma_texts_differ("model"@, "usage"@, 0);
    lemma_texts_differ("model"@, "choices"@, 0);
    lemma_texts_differ("choices"@, "usage"@, 0);
    lemma_texts_differ("message"@, "finish_reason"@, 0);
    lemma_texts_differ("reasoning_content"@, "content"@, 0);
    lemma_texts_differ("reasoning_content"@, "role"@, 0);
    lemma_texts_differ("content"@, "role"@, 0);
    lemma_texts_differ("content"@, "tool_calls"@, 0);
    lemma_texts_differ("content"@, "reasoning_content"@, 0);
    lemma_texts_differ("tool_calls"@, "reasoning_content"@, 0);
    lemma_texts_differ("tool_calls"@, "content"@, 0);
    lemma_texts_differ("tool_calls"@, "role"@, 0);
    lemma_texts_differ("prompt_tokens"@, "completion_tokens"@, 0);
    lemma_texts_differ("prompt_tokens"@, "total_tokens"@, 0);
    lemma_texts_differ("prompt_tokens"@, "prompt_tokens_details"@, 0);
    lemma_texts_differ("completion_tokens"@, "total_tokens"@, 0);
    lemma_texts_differ("completion_tokens"@, "prompt_tokens_details"@, 0);
    lemma_texts_differ("prompt_tokens_details"@, "total_tokens"@, 0);
    lemma_texts_differ("prompt_tokens_details"@, "completion_tokens"@, 0);
    lemma_texts_differ("prompt_tokens_details"@, "prompt_tokens"@, 0);
    lemma_texts_differ("length"@, "stop"@, 0);
    lemma_texts_differ("tool_calls"@, "stop"@, 0);
    lemma_texts_differ("tool_calls"@, "length"@, 0);
    lemma_texts_differ("content_filter"@, "stop"@, 0);
    lemma_texts_differ("content_filter"@, "length"@, 0);
    lemma_texts_differ("content_filter"@, "tool_calls"@, 0);
    lemma_texts_differ("content_filter"@, "function_call"@, 0);
}

/// Whether every block is text or thinking.
pub open spec fn text_or_thinking_only(c: Seq<BlockV>) -> bool {
    forall|i: int| 0 <= i < c.len() ==> (#[trigger] c[i] is Text || c[i] is Thinking)
}

/// Content of text and thinking blocks only has no tool calls to write.
proof fn lemma_no_tool_calls(c: Seq<BlockV>)
    requires
        text_or_thinking_only(c),
    ensures
        chat_tool_calls_json(c) == Seq::<JsonV>::empty(),
    decreases c.len(),
{
    if c.len() > 0 {
        assert(c.last() == c[c.len() - 1]);
        lemma_no_tool_calls(c.drop_last());
    }
}

/// The blocks an OpenAI Chat message carries for text and thinking content:
/// the thinking texts joined as one thinking block, then the texts joined as
/// one text block, each only when not empty.
pub open spec fn chat_message_blocks(c: Seq<BlockV>) -> Seq<BlockV> {
    (if thinking_text(c).len() > 0 {
        seq![BlockV::Thinking { text: thinking_text(c), signature: None }]
    } else {
        Seq::empty()
    }) + (if join_text_spec(c).len() > 0 {
        seq![BlockV::Text { text: join_text_spec(c) }]
    } else {
        Seq::empty()
    })
}

/// The stop reason an OpenAI Chat client reads back for `r`: the finish
/// reasons OpenAI has (end of turn, length, tool calls, content filter) come
/// back as they were; a stop sequence, or no reason, comes back as the end of
/// the turn; any other reason is read from its own text.
pub open spec fn chat_stop_read_back(r: Option<StopReasonV>) -> StopReasonV {
    match r {
        None => StopReasonV::EndTurn,
        Some(StopReasonV::StopSequence) => StopReasonV::EndTurn,
        Some(StopReasonV::Other(t)) => stop_from_openai(t),
        Some(s) => s,
    }
}

/// An IR response written as an OpenAI Chat Completions body and read back
/// keeps its id (a default one when it had none), the model it was written
/// for, its stop reason as far as OpenAI has one, its input, output and
/// cache-read token counts, and, when it holds only text and thinking, its
/// text and its reasoning.
pub proof fn law_openai_response_round_trip(r: ChatResponseV, model: Seq<char>)
    ensures
        chat_parse_response(chat_render_response(r, model)) is Ok,
        chat_parse_response(chat_render_response(r, model))->Ok_0.model == model,
        chat_parse_response(chat_render_response(r, model))->Ok_0.id == (if r.id.len() == 0 {
            "chatcmpl-litellm"@
        } else {
            r.id
        }),
        chat_parse_response(chat_render_response(r, model))->Ok_0.usage == (Usage {
            input_tokens: r.usage.input_tokens,
            output_tokens: r.usage.output_tokens,
            cache_creation_input_tokens: 0,
            cache_read_input_tokens: r.usage.cache_read_input_tokens,
        }),
        chat_parse_response(chat_render_response(r, model))->Ok_0.stop_reason == Some(
            chat_stop_read_back(r.stop_reason),
        ),
        text_or_thinking_only(r.content) ==> chat_parse_response(
            chat_render_response(r, model),
        )->Ok_0.content == chat_message_blocks(r.content),
{
    broadcast use lemma_get_after_set;

    lemma_chat_response_words();
    reveal_strlit("chatcmpl-litellm");
    reveal_strlit("stop");
    reveal_strlit("function_call");
    let body = chat_render_response(r, model);
    let choice = first_choice(body);
    let message = opt_get(choice, "message"@);
    if text_or_thinking_only(r.content) {
        lemma_no_tool_calls(r.content);
        assert(opt_get(message, "tool_calls"@) is None);
        assert(message_blocks(message) == chat_message_blocks(r.content));
    }
}


/// The member names of an OpenAI Responses response body and its statuses
/// are distinct texts.
proof fn lemma_responses_response_words()
    ensures
        "id"@ != "object"@,
        "id"@ != "model"@,
        "id"@ != "status"@,
        "id"@ != "output"@,
        "id"@ != "usage"@,
        "model"@ != "status"@,
        "model"@ != "output"@,
        "model"@ != "usage"@,
        "status"@ != "output"@,
        "status"@ != "usage"@,
        "output"@ != "usage"@,
        "type"@ != "role"@,
        "type"@ != "content"@,
        "type"@ != "text"@,
        "message"@ != "function_call"@,
        "incomplete"@ != "completed"@,
        "failed"@ != "completed"@,
        "input_tokens"@ != "output_tokens"@,
        "input_tokens"@ != "total_tokens"@,
        "input_tokens"@ != "input_tokens_details"@,
        "output_tokens"@ != "total_tokens"@,
        "output_tokens"@ != "input_tokens_details"@,
        "input_tokens_details"@ != "total_tokens"@,
        "input_tokens_details"@ != "output_tokens"@,
        "input_tokens_details"@ != "input_tokens"@,
{
    reveal_strlit("completed");
    reveal_strlit("content");
    reveal_strlit("failed");
    reveal_strlit("function_call");
    reveal_strlit("id");
    reveal_strlit("incomplete");
    reveal_strlit("input_tokens");
    reveal_strlit("input_tokens_details");
    reveal_strlit("message");
    reveal_strlit("model");
    reveal_strlit("object");
    reveal_strlit("output");
    reveal_strlit("output_tokens");
    reveal_strlit("role");
    reveal_strlit("status");
    reveal_strlit("text");
    reveal_strlit("total_tokens");
    reveal_strlit("type");
    reveal_strlit("usage");
    assert("completed"@.len() == 9);
    assert("content"@.len() == 7);
    assert("failed"@.len() == 6);
    assert("function_call"@.len() == 13);
    assert("id"@.len() == 2);
    assert("incomplete"@.len() == 10);
    assert("input_tokens"@.len() == 12);
    assert("input_tokens_details"@.len() == 20);
    assert("message"@.len() == 7);
    assert("model"@.len() == 5);
    assert("object"@.len() == 6);
    assert("output"@.len() == 6);
    assert("output_tokens"@.len() == 13);
    assert("role"@.len() == 4);
    assert("status"@.len() == 6);
    assert("text"@.len() == 4);
    assert("total_tokens"@.len() == 12);
    assert("type"@.len() == 4);
    assert("usage"@.len() == 5);
    lemma_texts_differ("id"@, "object"@, 0);
    lemma_texts_differ("id"@, "model"@, 0);
    lemma_texts_differ("id"@, "status"@, 0);
    lemma_texts_differ("id"@, "output"@, 0);
    lemma_texts_differ("id"@, "usage"@, 0);
    lemma_texts_differ("model"@, "status"@, 0);
    lemma_texts_differ("model"@, "output"@, 0);
    assert("model"@[0] == 'm' && "usage"@[0] == 'u');
    lemma_texts_differ("model"@, "usage"@, 0);
    assert("status"@[0] == 's' && "output"@[0] == 'o');
    lemma_texts_differ("status"@, "output"@, 0);
    lemma_texts_differ("status"@, "usage"@, 0);
    lemma_texts_differ("output"@, "usage"@, 0);
    assert("type"@[0] == 't' && "role"@[0] == 'r');
    lemma_texts_differ("type"@, "role"@, 0);
    lemma_texts_differ("type"@, "content"@, 0);
    assert("type"@[1] == 'y' && "text"@[1] == 'e');
    lemma_texts_differ("type"@, "text"@, 1);
    lemma_texts_differ("message"@, "function_call"@, 0);
    lemma_texts_differ("incomplete"@, "completed"@, 0);
    lemma_texts_differ("failed"@, "completed"@, 0);
    lemma_texts_differ("input_tokens"@, "output_tokens"@, 0);
    assert("input_tokens"@[0] == 'i' && "total_tokens"@[0] == 't');
    lemma_texts_differ("input_tokens"@, "total_tokens"@, 0);
    lemma_texts_differ("input_tokens"@, "input_tokens_details"@, 0);
    lemma_texts_differ("output_tokens"@, "total_tokens"@, 0);
    lemma_texts_differ("output_tokens"@, "input_tokens_details"@, 0);
    lemma_texts_differ("input_tokens_details"@, "total_tokens"@, 0);
    lemma_texts_differ("input_tokens_details"@, "output_tokens"@, 0);
    lemma_texts_differ("input_tokens_details"@, "input_tokens"@, 0);
}

/// Whether every block is text.
pub open spec fn text_only(c: Seq<BlockV>) -> bool {
    forall|i: int| 0 <= i < c.len() ==> #[trigger] c[i] is Text
}

/// Text content has no output items of its own to write.
proof fn lemma_no_response_items(c: Seq<BlockV>)
    requires
        text_only(c),
    ensures
        response_items(c) == Seq::<JsonV>::empty(),
    decreases c.len(),
{
    if c.len() > 0 {
        assert(c.last() == c[c.len() - 1]);
        lemma_no_response_items(c.drop_last());
    }
}

/// An IR response written as an OpenAI Responses body and read back keeps
/// its id (a default one when it had none), the model it was written for, a
/// token-limit stop, and its input, output and cache-read token counts; when
/// it holds only text, it comes back as that text, joined, ending its turn
/// unless it ran out of tokens.
pub proof fn law_responses_response_round_trip(r: ChatResponseV, model: Seq<char>)
    ensures
        responses_parse_response(responses_render_response(r, model)) is Ok,
        responses_parse_response(responses_render_response(r, model))->Ok_0.model == model,
        responses_parse_response(responses_render_response(r, model))->Ok_0.id == (if r.id.len()
            == 0 {
            "resp_litellm"@
        } else {
            r.id
        }),
        responses_parse_response(responses_render_response(r, model))->Ok_0.usage == (Usage {
            input_tokens: r.usage.input_tokens,
            output_tokens: r.usage.output_tokens,
            cache_creation_input_tokens: 0,
            cache_read_input_tokens: r.usage.cache_read_input_tokens,
        }),
        r.stop_reason == Some(StopReasonV::MaxTokens) ==> responses_parse_response(
            responses_render_response(r, model),
        )->Ok_0.stop_reason == Some(StopReasonV::MaxTokens),
        text_only(r.content) ==> responses_parse_response(
            responses_render_response(r, model),
        )->Ok_0.content == (if join_text_spec(r.content).len() > 0 {
            seq![BlockV::Text { text: join_text_spec(r.content) }]
        } else {
            Seq::empty()
        }),
        text_only(r.content) && r.stop_reason != Some(StopReasonV::MaxTokens)
            ==> responses_parse_response(responses_render_response(r, model))->Ok_0.stop_reason
            == Some(StopReasonV::EndTurn),
{
    broadcast use lemma_get_after_set;

    lemma_responses_response_words();
    reveal_strlit("resp_litellm");
    if text_only(r.content) {
        lemma_no_response_items(r.content);
        let text = join_text_spec(r.content);
        if text.len() > 0 {
            let part = typed("output_text"@).set("text"@, JsonV::Str(text));
            let m = typed("message"@).set("role"@, JsonV::Str("assistant"@)).set(
                "content"@,
                JsonV::Array(seq![part]),
            );
            let items = seq![m] + Seq::<JsonV>::empty();
            assert(items =~= seq![m]);
            assert(seq![part].drop_last() =~= Seq::<JsonV>::empty());
            assert(seq![part].last() == part);
            assert(part.get_str("text"@) == Some(text));
            assert(message_texts(Seq::<JsonV>::empty()) == Seq::<BlockV>::empty());
            assert(Seq::<BlockV>::empty().push(BlockV::Text { text }) =~= seq![BlockV::Text { text }]);
            assert(message_texts(seq![part]) == seq![BlockV::Text { text }]);
            assert(seq![m].drop_last() =~= Seq::<JsonV>::empty());
            assert(seq![m].last() == m);
            assert(output_blocks(Seq::<JsonV>::empty()) == Seq::<BlockV>::empty());
            assert(output_blocks(seq![m]) == Seq::<BlockV>::empty() + output_item_blocks(m));
            assert(output_item_blocks(m) == seq![BlockV::Text { text }]);
            assert(!saw_tool(seq![m]));
        } else {
            assert(!saw_tool(Seq::<JsonV>::empty()));
        }
    }
}


/// The member names of an OpenAI Chat request body and of its function
/// tools are distinct texts.
proof fn lemma_chat_request_words()
    ensures
        "model"@ != "messages"@,
        "model"@ != "tools"@,
        "model"@ != "tool_choice"@,
        "model"@ != "parallel_tool_calls"@,
        "model"@ != "response_format"@,
        "model"@ != "reasoning_effort"@,
        "model"@ != "max_tokens"@,
        "model"@ != "temperature"@,
        "model"@ != "top_p"@,
        "model"@ != "stop"@,
        "model"@ != "stream"@,
        "model"@ != "stream_options"@,
        "model"@ != "max_completion_tokens"@,
        "messages"@ != "tools"@,
        "messages"@ != "tool_choice"@,
        "messages"@ != "parallel_tool_calls"@,
        "messages"@ != "response_format"@,
        "messages"@ != "reasoning_effort"@,
        "messages"@ != "max_tokens"@,
        "messages"@ != "temperature"@,
        "messages"@ != "top_p"@,
        "messages"@ != "stop"@,
        "messages"@ != "stream"@,
        "messages"@ != "stream_options"@,
        "messages"@ != "max_completion_tokens"@,
        "tools"@ != "tool_choice"@,
        "tools"@ != "parallel_tool_calls"@,
        "tools"@ != "response_format"@,
        "tools"@ != "reasoning_effort"@,
        "tools"@ != "max_tokens"@,
        "tools"@ != "temperature"@,
        "tools"@ != "top_p"@,
        "tools"@ != "stop"@,
        "tools"@ != "stream"@,
        "tools"@ != "stream_options"@,
        "tools"@ != "max_completion_tokens"@,
        "tool_choice"@ != "parallel_tool_calls"@,
        "tool_choice"@ != "response_format"@,
        "tool_choice"@ != "reasoning_effort"@,
        "tool_choice"@ != "max_tokens"@,
        "tool_choice"@ != "temperature"@,
        "tool_choice"@ != "top_p"@,
        "tool_choice"@ != "stop"@,
        "tool_choice"@ != "stream"@,
        "tool_choice"@ != "stream_options"@,
        "tool_choice"@ != "max_completion_tokens"@,
        "parallel_tool_calls"@ != "response_format"@,
        "parallel_tool_calls"@ != "reasoning_effort"@,
        "parallel_tool_calls"@ != "max_tokens"@,
        "parallel_tool_calls"@ != "temperature"@,
        "parallel_tool_calls"@ != "top_p"@,
        "parallel_tool_calls"@ != "stop"@,
        "parallel_tool_calls"@ != "stream"@,
        "parallel_tool_calls"@ != "stream_options"@,
        "parallel_tool_calls"@ != "max_completion_tokens"@,
        "response_format"@ != "reasoning_effort"@,
        "response_format"@ != "max_tokens"@,
        "response_format"@ != "temperature"@,
        "response_format"@ != "top_p"@,
        "response_format"@ != "stop"@,
        "response_format"@ != "stream"@,
        "response_format"@ != "stream_options"@,
        "response_format"@ != "max_completion_tokens"@,
        "reasoning_effort"@ != "max_tokens"@,
        "reasoning_effort"@ != "temperature"@,
        "reasoning_effort"@ != "top_p"@,
        "reasoning_effort"@ != "stop"@,
        "reasoning_effort"@ != "stream"@,
        "reasoning_effort"@ != "stream_options"@,
        "reasoning_effort"@ != "max_completion_tokens"@,
        "max_tokens"@ != "temperature"@,
        "max_tokens"@ != "top_p"@,
        "max_tokens"@ != "stop"@,
        "max_tokens"@ != "stream"@,
        "max_tokens"@ != "stream_options"@,
        "max_tokens"@ != "max_completion_tokens"@,
        "temperature"@ != "top_p"@,
        "temperature"@ != "stop"@,
        "temperature"@ != "stream"@,
        "temperature"@ != "stream_options"@,
        "temperature"@ != "max_completion_tokens"@,
        "top_p"@ != "stop"@,
        "top_p"@ != "stream"@,
        "top_p"@ != "stream_options"@,
        "top_p"@ != "max_completion_tokens"@,
        "stop"@ != "stream"@,
        "stop"@ != "stream_options"@,
        "stop"@ != "max_completion_tokens"@,
        "stream"@ != "stream_options"@,
        "stream"@ != "max_completion_tokens"@,
        "stream_options"@ != "max_completion_tokens"@,
        "function"@ != "type"@,
        "name"@ != "parameters"@,
        "name"@ != "description"@,
        "parameters"@ != "description"@,
{
    reveal_strlit("description");
    reveal_strlit("function");
    reveal_strlit("max_completion_tokens");
    reveal_strlit("max_tokens");
    reveal_strlit("messages");
    reveal_strlit("model");
    reveal_strlit("name");
    reveal_strlit("parallel_tool_calls");
    reveal_strlit("parameters");
    reveal_strlit("reasoning_effort");
    reveal_strlit("response_format");
    reveal_strlit("stop");
    reveal_strlit("stream");
    reveal_strlit("stream_options");
    reveal_strlit("temperature");
    reveal_strlit("tool_choice");
    reveal_strlit("tools");
    reveal_strlit("top_p");
    reveal_strlit("type");
    assert("description"@.len() == 11);
    assert("function"@.len() == 8);
    assert("max_completion_tokens"@.len() == 21);
    assert("max_tokens"@.len() == 10);
    assert("messages"@.len() == 8);
    assert("model"@.len() == 5);
    assert("name"@.len() == 4);
    assert("parallel_tool_calls"@.len() == 19);
    assert("parameters"@.len() == 10);
    assert("reasoning_effort"@.len() == 16);
    assert("response_format"@.len() == 15);
    assert("stop"@.len() == 4);
    assert("stream"@.len() == 6);
    assert("stream_options"@.len() == 14);
    assert("temperature"@.len() == 11);
    assert("tool_choice"@.len() == 11);
    assert("tools"@.len() == 5);
    assert("top_p"@.len() == 5);
    assert("type"@.len() == 4);
    lemma_texts_differ("model"@, "messages"@, 0);
    assert("model"@[0] == 'm' && "tools"@[0] == 't');
    lemma_texts_differ("model"@, "tools"@, 0);
    lemma_texts_differ("model"@, "tool_choice"@, 0);
    lemma_texts_differ("model"@, "parallel_tool_calls"@, 0);
    lemma_texts_differ("model"@, "response_format"@, 0);
    lemma_texts_differ("model"@, "reasoning_effort"@, 0);
    lemma_texts_differ("model"@, "max_tokens"@, 0);
    lemma_texts_differ("model"@, "temperature"@, 0);
    assert("model"@[0] == 'm' && "top_p"@[0] == 't');
    lemma_texts_differ("model"@, "top_p"@, 0);
    lemma_texts_differ("model"@, "stop"@, 0);
    lemma_texts_differ("model"@, "stream"@, 0);
    lemma_texts_differ("model"@, "stream_options"@, 0);
    lemma_texts_differ("model"@, "max_completion_tokens"@, 0);
    lemma_texts_differ("messages"@, "tools"@, 0);
    lemma_texts_differ("messages"@, "tool_choice"@, 0);
    lemma_texts_differ("messages"@, "parallel_tool_calls"@, 0);
    lemma_texts_differ("messages"@, "response_format"@, 0);
    lemma_texts_differ("messages"@, "reasoning_effort"@, 0);
    lemma_texts_differ("messages"@, "max_tokens"@, 0);
    lemma_texts_differ("messages"@, "temperature"@, 0);
    lemma_texts_differ("messages"@, "top_p"@, 0);
    lemma_texts_differ("messages"@, "stop"@, 0);
    lemma_texts_differ("messages"@, "stream"@, 0);
    lemma_texts_differ("messages"@, "stream_options"@, 0);
    lemma_texts_differ("messages"@, "max_completion_tokens"@, 0);
    lemma_texts_differ("tools"@, "tool_choice"@, 0);
    lemma_texts_differ("tools"@, "parallel_tool_calls"@, 0);
    lemma_texts_differ("tools"@, "response_format"@, 0);
    lemma_texts_differ("tools"@, "reasoning_effort"@, 0);
    lemma_texts_differ("tools"@, "max_tokens"@, 0);
    lemma_texts_differ("tools"@, "temperature"@, 0);
    assert("tools"@[2] == 'o' && "top_p"@[2] == 'p');
    lemma_texts_differ("tools"@, "top_p"@, 2);
    lemma_texts_differ("tools"@, "stop"@, 0);
    lemma_texts_differ("tools"@, "stream"@, 0);
    lemma_texts_differ("tools"@, "stream_options"@, 0);
    lemma_texts_differ("tools"@, "max_completion_tokens"@, 0);
    lemma_texts_differ("tool_choice"@, "parallel_tool_calls"@, 0);
    lemma_texts_differ("tool_choice"@, "response_format"@, 0);
    lemma_texts_differ("tool_choice"@, "reasoning_effort"@, 0);
    lemma_texts_differ("tool_choice"@, "max_tokens"@, 0);
    assert("tool_choice"@[1] == 'o' && "temperature"@[1] == 'e');
    lemma_texts_differ("tool_choice"@, "temperature"@, 1);
    lemma_texts_differ("tool_choice"@, "top_p"@, 0);
    lemma_texts_differ("tool_choice"@, "stop"@, 0);
    lemma_texts_differ("tool_choice"@, "stream"@, 0);
    lemma_texts_differ("tool_choice"@, "stream_options"@, 0);
    lemma_texts_differ("tool_choice"@, "max_completion_tokens"@, 0);
    lemma_texts_differ("parallel_tool_calls"@, "response_format"@, 0);
    lemma_texts_differ("parallel_tool_calls"@, "reasoning_effort"@, 0);
    lemma_texts_differ("parallel_tool_calls"@, "max_tokens"@, 0);
    lemma_texts_differ("parallel_tool_calls"@, "temperature"@, 0);
    lemma_texts_differ("parallel_tool_calls"@, "top_p"@, 0);
    lemma_texts_differ("parallel_tool_calls"@, "stop"@, 0);
    lemma_texts_differ("parallel_tool_calls"@, "stream"@, 0);
    lemma_texts_differ("parallel_tool_calls"@, "stream_options"@, 0);
    lemma_texts_differ("parallel_tool_calls"@, "max_completion_tokens"@, 0);
    lemma_texts_differ("response_format"@, "reasoning_effort"@, 0);
    lemma_texts_differ("response_format"@, "max_tokens"@, 0);
    lemma_texts_differ("response_format"@, "temperature"@, 0);
    lemma_texts_differ("response_format"@, "top_p"@, 0);
    lemma_texts_differ("response_format"@, "stop"@, 0);
    lemma_texts_differ("response_format"@, "stream"@, 0);
    lemma_texts_differ("response_format"@, "stream_options"@, 0);
    lemma_texts_differ("response_format"@, "max_completion_tokens"@, 0);
    lemma_texts_differ("reasoning_effort"@, "max_tokens"@, 0);
    lemma_texts_differ("reasoning_effort"@, "temperature"@, 0);
    lemma_texts_differ("reasoning_effort"@, "top_p"@, 0);
    lemma_texts_differ("reasoning_effort"@, "stop"@, 0);
    lemma_texts_differ("reasoning_effort"@, "stream"@, 0);
    lemma_texts_differ("reasoning_effort"@, "stream_options"@, 0);
    lemma_texts_differ("reasoning_effort"@, "max_completion_tokens"@, 0);
    lemma_texts_differ("max_tokens"@, "temperature"@, 0);
    lemma_texts_differ("max_tokens"@, "top_p"@, 0);
    lemma_texts_differ("max_tokens"@, "stop"@, 0);
    lemma_texts_differ("max_tokens"@, "stream"@, 0);
    lemma_texts_differ("max_tokens"@, "stream_options"@, 0);
    lemma_texts_differ("max_tokens"@, "max_completion_tokens"@, 0);
    lemma_texts_differ("temperature"@, "top_p"@, 0);
    lemma_texts_differ("temperature"@, "stop"@, 0);
    lemma_texts_differ("temperature"@, "stream"@, 0);
    lemma_texts_differ("temperature"@, "stream_options"@, 0);
    lemma_texts_differ("temperature"@, "max_completion_tokens"@, 0);
    lemma_texts_differ("top_p"@, "stop"@, 0);
    lemma_texts_differ("top_p"@, "stream"@, 0);
    lemma_texts_differ("top_p"@, "stream_options"@, 0);
    lemma_texts_differ("top_p"@, "max_completion_tokens"@, 0);
    lemma_texts_differ("stop"@, "stream"@, 0);
    lemma_texts_differ("stop"@, "stream_options"@, 0);
    lemma_texts_differ("stop"@, "max_completion_tokens"@, 0);
    lemma_texts_differ("stream"@, "stream_options"@, 0);
    lemma_texts_differ("stream"@, "max_completion_tokens"@, 0);
    lemma_texts_differ("stream_options"@, "max_completion_tokens"@, 0);
    lemma_texts_differ("function"@, "type"@, 0);
    lemma_texts_differ("name"@, "parameters"@, 0);
    lemma_texts_differ("name"@, "description"@, 0);
    lemma_texts_differ("parameters"@, "description"@, 0);
}

/// The tools a provider is given as functions: those that are not built in,
/// in order.
pub open spec fn function_tools(t: Seq<ToolDefV>) -> Seq<ToolDefV>
    decreases t.len(),
{
    if t.len() == 0 {
        Seq::empty()
    } else {
        let rest = function_tools(t.drop_last());
        if t.last().builtin is None {
            rest.push(t.last())
        } else {
            rest
        }
    }
}

/// OpenAI Chat reads back each function tool it writes, with its name,
/// description and parameters.
proof fn lemma_openai_tools_read_back(t: Seq<ToolDefV>)
    ensures
        chat_tools_spec(openai_tools(t)) == function_tools(t),
    decreases t.len(),
{
    if t.len() > 0 {
        lemma_openai_tools_read_back(t.drop_last());
        let rest = openai_tools(t.drop_last());
        if t.last().builtin is None {
            broadcast use lemma_get_after_set;

            lemma_chat_request_words();
            let x = tool_to_openai_spec(t.last());
            assert(rest.push(x).drop_last() =~= rest);
            assert(tool_from_openai_spec(x) == Some(t.last()));
        }
    }
}

/// The stop sequences read back from the strings written for them.
proof fn lemma_strings_read_back(s: Seq<Seq<char>>)
    ensures
        strings_of(strings_json(s)) == s,
    decreases s.len(),
{
    if s.len() > 0 {
        lemma_strings_read_back(s.drop_last());
        assert(strings_json(s).drop_last() =~= strings_json(s.drop_last()));
        assert(s.drop_last().push(s.last()) =~= s);
    }
}

/// An IR request written as an OpenAI Chat body and read back keeps its
/// model, its function tools (name, description, parameters, in order), its
/// tool choice, whether tool calls may run in parallel when it has function
/// tools, its token limit, its sampling numbers, its stop sequences, and
/// whether it streams.
#[verifier::rlimit(100)]
#[verifier::spinoff_prover]
pub proof fn law_openai_request_round_trip(r: ChatRequestV)
    ensures
        chat_parse_request(chat_render_request(r)) is Ok,
        chat_parse_request(chat_render_request(r))->Ok_0.model == r.model,
        chat_parse_request(chat_render_request(r))->Ok_0.tools == function_tools(r.tools),
        chat_parse_request(chat_render_request(r))->Ok_0.tool_choice == r.tool_choice,
        chat_parse_request(chat_render_request(r))->Ok_0.parallel_tool_calls == (if function_tools(
            r.tools,
        ).len() > 0 {
            r.parallel_tool_calls
        } else {
            None
        }),
        chat_parse_request(chat_render_request(r))->Ok_0.max_tokens == r.max_tokens,
        chat_parse_request(chat_render_request(r))->Ok_0.temperature == number_of(r.temperature),
        chat_parse_request(chat_render_request(r))->Ok_0.top_p == number_of(r.top_p),
        chat_parse_request(chat_render_request(r))->Ok_0.stop == r.stop,
        chat_parse_request(chat_render_request(r))->Ok_0.stream == r.stream,
{
    broadcast use lemma_get_after_set;

    lemma_chat_request_words();
    lemma_openai_tools_read_back(r.tools);
    lemma_strings_read_back(r.stop);
    lemma_function_tools_len(r.tools);
    match r.tool_choice {
        Some(tc) => law_openai_tool_choice_round_trip(tc),
        None => {},
    }
}

/// As many tools are written as function tools as there are.
proof fn lemma_function_tools_len(t: Seq<ToolDefV>)
    ensures
        openai_tools(t).len() == function_tools(t).len(),
    decreases t.len(),
{
    if t.len() > 0 {
        lemma_function_tools_len(t.drop_last());
    }
}


/// The member names of an Anthropic Messages request body are distinct
/// texts.
proof fn lemma_anthropic_request_words()
    ensures
        "model"@ != "max_tokens"@,
        "model"@ != "system"@,
        "model"@ != "messages"@,
        "model"@ != "tools"@,
        "model"@ != "tool_choice"@,
        "model"@ != "thinking"@,
        "model"@ != "temperature"@,
        "model"@ != "top_p"@,
        "model"@ != "stop_sequences"@,
        "model"@ != "stream"@,
        "model"@ != "output_format"@,
        "model"@ != "output_config"@,
        "max_tokens"@ != "system"@,
        "max_tokens"@ != "messages"@,
        "max_tokens"@ != "tools"@,
        "max_tokens"@ != "tool_choice"@,
        "max_tokens"@ != "thinking"@,
        "max_tokens"@ != "temperature"@,
        "max_tokens"@ != "top_p"@,
        "max_tokens"@ != "stop_sequences"@,
        "max_tokens"@ != "stream"@,
        "max_tokens"@ != "output_format"@,
        "max_tokens"@ != "output_config"@,
        "system"@ != "messages"@,
        "system"@ != "tools"@,
        "system"@ != "tool_choice"@,
        "system"@ != "thinking"@,
        "system"@ != "temperature"@,
        "system"@ != "top_p"@,
        "system"@ != "stop_sequences"@,
        "system"@ != "stream"@,
        "system"@ != "output_format"@,
        "system"@ != "output_config"@,
        "messages"@ != "tools"@,
        "messages"@ != "tool_choice"@,
        "messages"@ != "thinking"@,
        "messages"@ != "temperature"@,
        "messages"@ != "top_p"@,
        "messages"@ != "stop_sequences"@,
        "messages"@ != "stream"@,
        "messages"@ != "output_format"@,
        "messages"@ != "output_config"@,
        "tools"@ != "tool_choice"@,
        "tools"@ != "thinking"@,
        "tools"@ != "temperature"@,
        "tools"@ != "top_p"@,
        "tools"@ != "stop_sequences"@,
        "tools"@ != "stream"@,
        "tools"@ != "output_format"@,
        "tools"@ != "output_config"@,
        "tool_choice"@ != "thinking"@,
        "tool_choice"@ != "temperature"@,
        "tool_choice"@ != "top_p"@,
        "tool_choice"@ != "stop_sequences"@,
        "tool_choice"@ != "stream"@,
        "tool_choice"@ != "output_format"@,
        "tool_choice"@ != "output_config"@,
        "thinking"@ != "temperature"@,
        "thinking"@ != "top_p"@,
        "thinking"@ != "stop_sequences"@,
        "thinking"@ != "stream"@,
        "thinking"@ != "output_format"@,
        "thinking"@ != "output_config"@,
        "temperature"@ != "top_p"@,
        "temperature"@ != "stop_sequences"@,
        "temperature"@ != "stream"@,
        "temperature"@ != "output_format"@,
        "temperature"@ != "output_config"@,
        "top_p"@ != "stop_sequences"@,
        "top_p"@ != "stream"@,
        "top_p"@ != "output_format"@,
        "top_p"@ != "output_config"@,
        "stop_sequences"@ != "stream"@,
        "stop_sequences"@ != "output_format"@,
        "stop_sequences"@ != "output_config"@,
        "stream"@ != "output_format"@,
        "stream"@ != "output_config"@,
        "output_format"@ != "output_config"@,
        "type"@ != "disable_parallel_tool_use"@,
        "name"@ != "disable_parallel_tool_use"@,
{
    reveal_strlit("disable_parallel_tool_use");
    reveal_strlit("max_tokens");
    reveal_strlit("messages");
    reveal_strlit("model");
    reveal_strlit("name");
    reveal_strlit("output_config");
    reveal_strlit("output_format");
    reveal_strlit("stop_sequences");
    reveal_strlit("stream");
    reveal_strlit("system");
    reveal_strlit("temperature");
    reveal_strlit("thinking");
    reveal_strlit("tool_choice");
    reveal_strlit("tools");
    reveal_strlit("top_p");
    reveal_strlit("type");
    assert("disable_parallel_tool_use"@.len() == 25);
    assert("max_tokens"@.len() == 10);
    assert("messages"@.len() == 8);
    assert("model"@.len() == 5);
    assert("name"@.len() == 4);
    assert("output_config"@.len() == 13);
    assert("output_format"@.len() == 13);
    assert("stop_sequences"@.len() == 14);
    assert("stream"@.len() == 6);
    assert("system"@.len() == 6);
    assert("temperature"@.len() == 11);
    assert("thinking"@.len() == 8);
    assert("tool_choice"@.len() == 11);
    assert("tools"@.len() == 5);
    assert("top_p"@.len() == 5);
    assert("type"@.len() == 4);
    lemma_texts_differ("model"@, "max_tokens"@, 0);
    lemma_texts_differ("model"@, "system"@, 0);
    lemma_texts_differ("model"@, "messages"@, 0);
    assert("model"@[0] == 'm' && "tools"@[0] == 't');
    lemma_texts_differ("model"@, "tools"@, 0);
    lemma_texts_differ("model"@, "tool_choice"@, 0);
    lemma_texts_differ("model"@, "thinking"@, 0);
    lemma_texts_differ("model"@, "temperature"@, 0);
    assert("model"@[0] == 'm' && "top_p"@[0] == 't');
    lemma_texts_differ("model"@, "top_p"@, 0);
    lemma_texts_differ("model"@, "stop_sequences"@, 0);
    lemma_texts_differ("model"@, "stream"@, 0);
    lemma_texts_differ("model"@, "output_format"@, 0);
    lemma_texts_differ("model"@, "output_config"@, 0);
    lemma_texts_differ("max_tokens"@, "system"@, 0);
    lemma_texts_differ("max_tokens"@, "messages"@, 0);
    lemma_texts_differ("max_tokens"@, "tools"@, 0);
    lemma_texts_differ("max_tokens"@, "tool_choice"@, 0);
    lemma_texts_differ("max_tokens"@, "thinking"@, 0);
    lemma_texts_differ("max_tokens"@, "temperature"@, 0);
    lemma_texts_differ("max_tokens"@, "top_p"@, 0);
    lemma_texts_differ("max_tokens"@, "stop_sequences"@, 0);
    lemma_texts_differ("max_tokens"@, "stream"@, 0);
    lemma_texts_differ("max_tokens"@, "output_format"@, 0);
    lemma_texts_differ("max_tokens"@, "output_config"@, 0);
    lemma_texts_differ("system"@, "messages"@, 0);
    lemma_texts_differ("system"@, "tools"@, 0);
    lemma_texts_differ("system"@, "tool_choice"@, 0);
    lemma_texts_differ("system"@, "thinking"@, 0);
    lemma_texts_differ("system"@, "temperature"@, 0);
    lemma_texts_differ("system"@, "top_p"@, 0);
    lemma_texts_differ("system"@, "stop_sequences"@, 0);
    assert("system"@[1] == 'y' && "stream"@[1] == 't');
    lemma_texts_differ("system"@, "stream"@, 1);
    lemma_texts_differ("system"@, "output_format"@, 0);
    lemma_texts_differ("system"@, "output_config"@, 0);
    lemma_texts_differ("messages"@, "tools"@, 0);
    lemma_texts_differ("messages"@, "tool_choice"@, 0);
    assert("messages"@[0] == 'm' && "thinking"@[0] == 't');
    lemma_texts_differ("messages"@, "thinking"@, 0);
    lemma_texts_differ("messages"@, "temperature"@, 0);
    lemma_texts_differ("messages"@, "top_p"@, 0);
    lemma_texts_differ("messages"@, "stop_sequences"@, 0);
    lemma_texts_differ("messages"@, "stream"@, 0);
    lemma_texts_differ("messages"@, "output_format"@, 0);
    lemma_texts_differ("messages"@, "output_config"@, 0);
    lemma_texts_differ("tools"@, "tool_choice"@, 0);
    lemma_texts_differ("tools"@, "thinking"@, 0);
    lemma_texts_differ("tools"@, "temperature"@, 0);
    assert("tools"@[2] == 'o' && "top_p"@[2] == 'p');
    lemma_texts_differ("tools"@, "top_p"@, 2);
    lemma_texts_differ("tools"@, "stop_sequences"@, 0);
    lemma_texts_differ("tools"@, "stream"@, 0);
    lemma_texts_differ("tools"@, "output_format"@, 0);
    lemma_texts_differ("tools"@, "output_config"@, 0);
    lemma_texts_differ("tool_choice"@, "thinking"@, 0);
    assert("tool_choice"@[1] == 'o' && "temperature"@[1] == 'e');
    lemma_texts_differ("tool_choice"@, "temperature"@, 1);
    lemma_texts_differ("tool_choice"@, "top_p"@, 0);
    lemma_texts_differ("tool_choice"@, "stop_sequences"@, 0);
    lemma_texts_differ("tool_choice"@, "stream"@, 0);
    lemma_texts_differ("tool_choice"@, "output_format"@, 0);
    lemma_texts_differ("tool_choice"@, "output_config"@, 0);
    lemma_texts_differ("thinking"@, "temperature"@, 0);
    lemma_texts_differ("thinking"@, "top_p"@, 0);
    lemma_texts_differ("thinking"@, "stop_sequences"@, 0);
    lemma_texts_differ("thinking"@, "stream"@, 0);
    lemma_texts_differ("thinking"@, "output_format"@, 0);
    lemma_texts_differ("thinking"@, "output_config"@, 0);
    lemma_texts_differ("temperature"@, "top_p"@, 0);
    lemma_texts_differ("temperature"@, "stop_sequences"@, 0);
    lemma_texts_differ("temperature"@, "stream"@, 0);
    lemma_texts_differ("temperature"@, "output_format"@, 0);
    lemma_texts_differ("temperature"@, "output_config"@, 0);
    lemma_texts_differ("top_p"@, "stop_sequences"@, 0);
    lemma_texts_differ("top_p"@, "stream"@, 0);
    lemma_texts_differ("top_p"@, "output_format"@, 0);
    lemma_texts_differ("top_p"@, "output_config"@, 0);
    lemma_texts_differ("stop_sequences"@, "stream"@, 0);
    lemma_texts_differ("stop_sequences"@, "output_format"@, 0);
    lemma_texts_differ("stop_sequences"@, "output_config"@, 0);
    lemma_texts_differ("stream"@, "output_format"@, 0);
    lemma_texts_differ("stream"@, "output_config"@, 0);
    assert("output_format"@[7] == 'f' && "output_config"@[7] == 'c');
    lemma_texts_differ("output_format"@, "output_config"@, 7);
    lemma_texts_differ("type"@, "disable_parallel_tool_use"@, 0);
    lemma_texts_differ("name"@, "disable_parallel_tool_use"@, 0);
}

/// An IR request written as an Anthropic Messages body and read back keeps
/// its model, its token limit (the default one when it had none), its tool
/// choice, a ban on parallel tool calls that comes with a tool choice, its
/// stop sequences and whether it streams, and, when no thinking budget is
/// sent, its sampling numbers.
#[verifier::rlimit(100)]
#[verifier::spinoff_prover]
pub proof fn law_anthropic_request_round_trip(r: ChatRequestV)
    ensures
        anthropic_parse_request(anthropic_render_request(r)) is Ok,
        anthropic_parse_request(anthropic_render_request(r))->Ok_0.model == r.model,
        anthropic_parse_request(anthropic_render_request(r))->Ok_0.max_tokens == Some(
            u64_or(r.max_tokens, DEFAULT_MAX_TOKENS),
        ),
        anthropic_parse_request(anthropic_render_request(r))->Ok_0.tool_choice == r.tool_choice,
        anthropic_parse_request(anthropic_render_request(r))->Ok_0.parallel_tool_calls == (if r.tool_choice
            is Some && r.parallel_tool_calls == Some(false) {
            Some(false)
        } else {
            None
        }),
        anthropic_parse_request(anthropic_render_request(r))->Ok_0.stop == r.stop,
        anthropic_parse_request(anthropic_render_request(r))->Ok_0.stream == r.stream,
        thinking_budget(r) is None ==> anthropic_parse_request(
            anthropic_render_request(r),
        )->Ok_0.temperature == number_of(r.temperature),
        thinking_budget(r) is None ==> anthropic_parse_request(
            anthropic_render_request(r),
        )->Ok_0.top_p == number_of(r.top_p),
{
    broadcast use lemma_get_after_set;

    lemma_anthropic_request_words();
    lemma_strings_read_back(r.stop);
    match r.tool_choice {
        Some(tc) => law_anthropic_tool_choice_round_trip(tc),
        None => {},
    }
}


/// The member names of an OpenAI Responses request body are distinct
/// texts.
proof fn lemma_responses_request_words()
    ensures
        "model"@ != "instructions"@,
        "model"@ != "input"@,
        "model"@ != "tools"@,
        "model"@ != "tool_choice"@,
        "model"@ != "parallel_tool_calls"@,
        "model"@ != "text"@,
        "model"@ != "reasoning"@,
        "model"@ != "max_output_tokens"@,
        "model"@ != "temperature"@,
        "model"@ != "top_p"@,
        "model"@ != "stream"@,
        "instructions"@ != "input"@,
        "instructions"@ != "tools"@,
        "instructions"@ != "tool_choice"@,
        "instructions"@ != "parallel_tool_calls"@,
        "instructions"@ != "text"@,
        "instructions"@ != "reasoning"@,
        "instructions"@ != "max_output_tokens"@,
        "instructions"@ != "temperature"@,
        "instructions"@ != "top_p"@,
        "instructions"@ != "stream"@,
        "input"@ != "tools"@,
        "input"@ != "tool_choice"@,
        "input"@ != "parallel_tool_calls"@,
        "input"@ != "text"@,
        "input"@ != "reasoning"@,
        "input"@ != "max_output_tokens"@,
        "input"@ != "temperature"@,
        "input"@ != "top_p"@,
        "input"@ != "stream"@,
        "tools"@ != "tool_choice"@,
        "tools"@ != "parallel_tool_calls"@,
        "tools"@ != "text"@,
        "tools"@ != "reasoning"@,
        "tools"@ != "max_output_tokens"@,
        "tools"@ != "temperature"@,
        "tools"@ != "top_p"@,
        "tools"@ != "stream"@,
        "tool_choice"@ != "parallel_tool_calls"@,
        "tool_choice"@ != "text"@,
        "tool_choice"@ != "reasoning"@,
        "tool_choice"@ != "max_output_tokens"@,
        "tool_choice"@ != "temperature"@,
        "tool_choice"@ != "top_p"@,
        "tool_choice"@ != "stream"@,
        "parallel_tool_calls"@ != "text"@,
        "parallel_tool_calls"@ != "reasoning"@,
        "parallel_tool_calls"@ != "max_output_tokens"@,
        "parallel_tool_calls"@ != "temperature"@,
        "parallel_tool_calls"@ != "top_p"@,
        "parallel_tool_calls"@ != "stream"@,
        "text"@ != "reasoning"@,
        "text"@ != "max_output_tokens"@,
        "text"@ != "temperature"@,
        "text"@ != "top_p"@,
        "text"@ != "stream"@,
        "reasoning"@ != "max_output_tokens"@,
        "reasoning"@ != "temperature"@,
        "reasoning"@ != "top_p"@,
        "reasoning"@ != "stream"@,
        "max_output_tokens"@ != "temperature"@,
        "max_output_tokens"@ != "top_p"@,
        "max_output_tokens"@ != "stream"@,
        "temperature"@ != "top_p"@,
        "temperature"@ != "stream"@,
        "top_p"@ != "stream"@,
{
    reveal_strlit("input");
    reveal_strlit("instructions");
    reveal_strlit("max_output_tokens");
    reveal_strlit("model");
    reveal_strlit("parallel_tool_calls");
    reveal_strlit("reasoning");
    reveal_strlit("stream");
    reveal_strlit("temperature");
    reveal_strlit("text");
    reveal_strlit("tool_choice");
    reveal_strlit("tools");
    reveal_strlit("top_p");
    assert("input"@.len() == 5);
    assert("instructions"@.len() == 12);
    assert("max_output_tokens"@.len() == 17);
    assert("model"@.len() == 5);
    assert("parallel_tool_calls"@.len() == 19);
    assert("reasoning"@.len() == 9);
    assert("stream"@.len() == 6);
    assert("temperature"@.len() == 11);
    assert("text"@.len() == 4);
    assert("tool_choice"@.len() == 11);
    assert("tools"@.len() == 5);
    assert("top_p"@.len() == 5);
    lemma_texts_differ("model"@, "instructions"@, 0);
    assert("model"@[0] == 'm' && "input"@[0] == 'i');
    lemma_texts_differ("model"@, "input"@, 0);
    assert("model"@[0] == 'm' && "tools"@[0] == 't');
    lemma_texts_differ("model"@, "tools"@, 0);
    lemma_texts_differ("model"@, "tool_choice"@, 0);
    lemma_texts_differ("model"@, "parallel_tool_calls"@, 0);
    lemma_texts_differ("model"@, "text"@, 0);
    lemma_texts_differ("model"@, "reasoning"@, 0);
    lemma_texts_differ("model"@, "max_output_tokens"@, 0);
    lemma_texts_differ("model"@, "temperature"@, 0);
    assert("model"@[0] == 'm' && "top_p"@[0] == 't');
    lemma_texts_differ("model"@, "top_p"@, 0);
    lemma_texts_differ("model"@, "stream"@, 0);
    lemma_texts_differ("instructions"@, "input"@, 0);
    lemma_texts_differ("instructions"@, "tools"@, 0);
    lemma_texts_differ("instructions"@, "tool_choice"@, 0);
    lemma_texts_differ("instructions"@, "parallel_tool_calls"@, 0);
    lemma_texts_differ("instructions"@, "text"@, 0);
    lemma_texts_differ("instructions"@, "reasoning"@, 0);
    lemma_texts_differ("instructions"@, "max_output_tokens"@, 0);
    lemma_texts_differ("instructions"@, "temperature"@, 0);
    lemma_texts_differ("instructions"@, "top_p"@, 0);
    lemma_texts_differ("instructions"@, "stream"@, 0);
    assert("input"@[0] == 'i' && "tools"@[0] == 't');
    lemma_texts_differ("input"@, "tools"@, 0);
    lemma_texts_differ("input"@, "tool_choice"@, 0);
    lemma_texts_differ("input"@, "parallel_tool_calls"@, 0);
    lemma_texts_differ("input"@, "text"@, 0);
    lemma_texts_differ("input"@, "reasoning"@, 0);
    lemma_texts_differ("input"@, "max_output_tokens"@, 0);
    lemma_texts_differ("input"@, "temperature"@, 0);
    assert("input"@[0] == 'i' && "top_p"@[0] == 't');
    lemma_texts_differ("input"@, "top_p"@, 0);
    lemma_texts_differ("input"@, "stream"@, 0);
    lemma_texts_differ("tools"@, "tool_choice"@, 0);
    lemma_texts_differ("tools"@, "parallel_tool_calls"@, 0);
    lemma_texts_differ("tools"@, "text"@, 0);
    lemma_texts_differ("tools"@, "reasoning"@, 0);
    lemma_texts_differ("tools"@, "max_output_tokens"@, 0);
    lemma_texts_differ("tools"@, "temperature"@, 0);
    assert("tools"@[2] == 'o' && "top_p"@[2] == 'p');
    lemma_texts_differ("tools"@, "top_p"@, 2);
    lemma_texts_differ("tools"@, "stream"@, 0);
    lemma_texts_differ("tool_choice"@, "parallel_tool_calls"@, 0);
    lemma_texts_differ("tool_choice"@, "text"@, 0);
    lemma_texts_differ("tool_choice"@, "reasoning"@, 0);
    lemma_texts_differ("tool_choice"@, "max_output_tokens"@, 0);
    assert("tool_choice"@[1] == 'o' && "temperature"@[1] == 'e');
    lemma_texts_differ("tool_choice"@, "temperature"@, 1);
    lemma_texts_differ("tool_choice"@, "top_p"@, 0);
    lemma_texts_differ("tool_choice"@, "stream"@, 0);
    lemma_texts_differ("parallel_tool_calls"@, "text"@, 0);
    lemma_texts_differ("parallel_tool_calls"@, "reasoning"@, 0);
    lemma_texts_differ("parallel_tool_calls"@, "max_output_tokens"@, 0);
    lemma_texts_differ("parallel_tool_calls"@, "temperature"@, 0);
    lemma_texts_differ("parallel_tool_calls"@, "top_p"@, 0);
    lemma_texts_differ("parallel_tool_calls"@, "stream"@, 0);
    lemma_texts_differ("text"@, "reasoning"@, 0);
    lemma_texts_differ("text"@, "max_output_tokens"@, 0);
    lemma_texts_differ("text"@, "temperature"@, 0);
    lemma_texts_differ("text"@, "top_p"@, 0);
    lemma_texts_differ("text"@, "stream"@, 0);
    lemma_texts_differ("reasoning"@, "max_output_tokens"@, 0);
    lemma_texts_differ("reasoning"@, "temperature"@, 0);
    lemma_texts_differ("reasoning"@, "top_p"@, 0);
    lemma_texts_differ("reasoning"@, "stream"@, 0);
    lemma_texts_differ("max_output_tokens"@, "temperature"@, 0);
    lemma_texts_differ("max_output_tokens"@, "top_p"@, 0);
    lemma_texts_differ("max_output_tokens"@, "stream"@, 0);
    lemma_texts_differ("temperature"@, "top_p"@, 0);
    lemma_texts_differ("temperature"@, "stream"@, 0);
    lemma_texts_differ("top_p"@, "stream"@, 0);
}

/// As many tools are written as Responses functions as there are function
/// tools.
proof fn lemma_responses_tools_len(t: Seq<ToolDefV>)
    ensures
        responses_tools(t).len() == function_tools(t).len(),
    decreases t.len(),
{
    if t.len() > 0 {
        lemma_responses_tools_len(t.drop_last());
    }
}

/// An IR request written as an OpenAI Responses body and read back keeps
/// its model, its system text (joined, as one instruction), its token limit,
/// its sampling numbers and whether it streams; when it has function tools,
/// its tool choice and whether tool calls may run in parallel.
#[verifier::rlimit(100)]
#[verifier::spinoff_prover]
pub proof fn law_responses_request_round_trip(r: ChatRequestV)
    ensures
        responses_parse_request(responses_render_request(r)) is Ok,
        responses_parse_request(responses_render_request(r))->Ok_0.model == r.model,
        responses_parse_request(responses_render_request(r))->Ok_0.system == (if r.system.len() > 0 {
            seq![BlockV::Text { text: join_text_spec(r.system) }]
        } else {
            Seq::empty()
        }),
        responses_parse_request(responses_render_request(r))->Ok_0.max_tokens == r.max_tokens,
        responses_parse_request(responses_render_request(r))->Ok_0.temperature == number_of(
            r.temperature,
        ),
        responses_parse_request(responses_render_request(r))->Ok_0.top_p == number_of(r.top_p),
        responses_parse_request(responses_render_request(r))->Ok_0.stream == r.stream,
        function_tools(r.tools).len() > 0 ==> responses_parse_request(
            responses_render_request(r),
        )->Ok_0.tool_choice == r.tool_choice,
        function_tools(r.tools).len() > 0 ==> responses_parse_request(
            responses_render_request(r),
        )->Ok_0.parallel_tool_calls == r.parallel_tool_calls,
{
    broadcast use lemma_get_after_set;

    lemma_responses_request_words();
    lemma_responses_tools_len(r.tools);
    match r.tool_choice {
        Some(tc) => law_responses_tool_choice_round_trip(tc),
        None => {},
    }
}


/// The member names of a Gemini request body and of its generation config
/// are distinct texts.
proof fn lemma_gemini_request_words()
    ensures
        "maxOutputTokens"@ != "temperature"@,
        "maxOutputTokens"@ != "topP"@,
        "maxOutputTokens"@ != "stopSequences"@,
        "maxOutputTokens"@ != "responseMimeType"@,
        "maxOutputTokens"@ != "responseJsonSchema"@,
        "maxOutputTokens"@ != "thinkingConfig"@,
        "temperature"@ != "topP"@,
        "temperature"@ != "stopSequences"@,
        "temperature"@ != "responseMimeType"@,
        "temperature"@ != "responseJsonSchema"@,
        "temperature"@ != "thinkingConfig"@,
        "topP"@ != "stopSequences"@,
        "topP"@ != "responseMimeType"@,
        "topP"@ != "responseJsonSchema"@,
        "topP"@ != "thinkingConfig"@,
        "stopSequences"@ != "responseMimeType"@,
        "stopSequences"@ != "responseJsonSchema"@,
        "stopSequences"@ != "thinkingConfig"@,
        "responseMimeType"@ != "responseJsonSchema"@,
        "responseMimeType"@ != "thinkingConfig"@,
        "responseJsonSchema"@ != "thinkingConfig"@,
        "systemInstruction"@ != "contents"@,
        "systemInstruction"@ != "tools"@,
        "systemInstruction"@ != "toolConfig"@,
        "systemInstruction"@ != "generationConfig"@,
        "contents"@ != "tools"@,
        "contents"@ != "toolConfig"@,
        "contents"@ != "generationConfig"@,
        "tools"@ != "toolConfig"@,
        "tools"@ != "generationConfig"@,
        "toolConfig"@ != "generationConfig"@,
{
    reveal_strlit("contents");
    reveal_strlit("generationConfig");
    reveal_strlit("maxOutputTokens");
    reveal_strlit("responseJsonSchema");
    reveal_strlit("responseMimeType");
    reveal_strlit("stopSequences");
    reveal_strlit("systemInstruction");
    reveal_strlit("temperature");
    reveal_strlit("thinkingConfig");
    reveal_strlit("toolConfig");
    reveal_strlit("tools");
    reveal_strlit("topP");
    assert("contents"@.len() == 8);
    assert("generationConfig"@.len() == 16);
    assert("maxOutputTokens"@.len() == 15);
    assert("responseJsonSchema"@.len() == 18);
    assert("responseMimeType"@.len() == 16);
    assert("stopSequences"@.len() == 13);
    assert("systemInstruction"@.len() == 17);
    assert("temperature"@.len() == 11);
    assert("thinkingConfig"@.len() == 14);
    assert("toolConfig"@.len() == 10);
    assert("tools"@.len() == 5);
    assert("topP"@.len() == 4);
    lemma_texts_differ("maxOutputTokens"@, "temperature"@, 0);
    lemma_texts_differ("maxOutputTokens"@, "topP"@, 0);
    lemma_texts_differ("maxOutputTokens"@, "stopSequences"@, 0);
    lemma_texts_differ("maxOutputTokens"@, "responseMimeType"@, 0);
    lemma_texts_differ("maxOutputTokens"@, "responseJsonSchema"@, 0);
    lemma_texts_differ("maxOutputTokens"@, "thinkingConfig"@, 0);
    lemma_texts_differ("temperature"@, "topP"@, 0);
    lemma_texts_differ("temperature"@, "stopSequences"@, 0);
    lemma_texts_differ("temperature"@, "responseMimeType"@, 0);
    lemma_texts_differ("temperature"@, "responseJsonSchema"@, 0);
    lemma_texts_differ("temperature"@, "thinkingConfig"@, 0);
    lemma_texts_differ("topP"@, "stopSequences"@, 0);
    lemma_texts_differ("topP"@, "responseMimeType"@, 0);
    lemma_texts_differ("topP"@, "responseJsonSchema"@, 0);
    lemma_texts_differ("topP"@, "thinkingConfig"@, 0);
    lemma_texts_differ("stopSequences"@, "responseMimeType"@, 0);
    lemma_texts_differ("stopSequences"@, "responseJsonSchema"@, 0);
    lemma_texts_differ("stopSequences"@, "thinkingConfig"@, 0);
    lemma_texts_differ("responseMimeType"@, "responseJsonSchema"@, 0);
    lemma_texts_differ("responseMimeType"@, "thinkingConfig"@, 0);
    lemma_texts_differ("responseJsonSchema"@, "thinkingConfig"@, 0);
    lemma_texts_differ("systemInstruction"@, "contents"@, 0);
    lemma_texts_differ("systemInstruction"@, "tools"@, 0);
    lemma_texts_differ("systemInstruction"@, "toolConfig"@, 0);
    lemma_texts_differ("systemInstruction"@, "generationConfig"@, 0);
    lemma_texts_differ("contents"@, "tools"@, 0);
    lemma_texts_differ("contents"@, "toolConfig"@, 0);
    lemma_texts_differ("contents"@, "generationConfig"@, 0);
    lemma_texts_differ("tools"@, "toolConfig"@, 0);
    lemma_texts_differ("tools"@, "generationConfig"@, 0);
    lemma_texts_differ("toolConfig"@, "generationConfig"@, 0);
}

/// An object that holds a member is not empty.
proof fn lemma_holds_member(o: JsonV, key: Seq<char>)
    requires
        o is Object,
        o.get(key) is Some,
    ensures
        o->Object_0.len() > 0,
{
    lemma_key_index(o->Object_0, key);
}

/// An IR request written as a Gemini body and read back keeps its system
/// text (joined, when there is some), its token limit, its sampling numbers
/// and its stop sequences, each when it has one.
#[verifier::rlimit(100)]
#[verifier::spinoff_prover]
pub proof fn law_gemini_request_round_trip(r: ChatRequestV)
    ensures
        gemini_parse_request(gemini_render_request(r)) is Ok,
        join_text_spec(r.system).len() > 0 ==> gemini_parse_request(
            gemini_render_request(r),
        )->Ok_0.system == seq![BlockV::Text { text: join_text_spec(r.system) }],
        r.max_tokens is Some ==> gemini_parse_request(gemini_render_request(r))->Ok_0.max_tokens
            == r.max_tokens,
        r.temperature is Some ==> gemini_parse_request(gemini_render_request(r))->Ok_0.temperature
            == number_of(r.temperature),
        r.top_p is Some ==> gemini_parse_request(gemini_render_request(r))->Ok_0.top_p
            == number_of(r.top_p),
        r.stop.len() > 0 ==> gemini_parse_request(gemini_render_request(r))->Ok_0.stop == r.stop,
{
    broadcast use lemma_get_after_set;

    lemma_gemini_request_words();
    lemma_strings_read_back(r.stop);
    let gen = generation_config_spec(r);
    if r.max_tokens is Some {
        assert(gen.get("maxOutputTokens"@) is Some);
        lemma_holds_member(gen, "maxOutputTokens"@);
    } else if r.temperature is Some {
        assert(gen.get("temperature"@) is Some);
        lemma_holds_member(gen, "temperature"@);
    } else if r.top_p is Some {
        assert(gen.get("topP"@) is Some);
        lemma_holds_member(gen, "topP"@);
    } else if r.stop.len() > 0 {
        assert(gen.get("stopSequences"@) is Some);
        lemma_holds_member(gen, "stopSequences"@);
    }
    let text = join_text_spec(r.system);
    if text.len() > 0 {
        let part = obj1("text"@, JsonV::Str(text));
        reveal_strlit("text");
        assert(seq![part].drop_last() =~= Seq::<JsonV>::empty());
        assert(seq![part].last() == part);
        assert(part.get_str("text"@) == Some(text));
        assert(summary_text(Seq::<JsonV>::empty()) == Seq::<char>::empty());
        assert(Seq::<char>::empty() + text =~= text);
        assert(summary_text(seq![part]) == text);
    }
}


/// The member names of an Anthropic Messages response body, of its usage,
/// and its stop reasons are distinct texts.
proof fn lemma_anthropic_response_words()
    ensures
        "id"@ != "type"@,
        "id"@ != "role"@,
        "id"@ != "model"@,
        "id"@ != "content"@,
        "id"@ != "stop_reason"@,
        "id"@ != "stop_sequence"@,
        "id"@ != "usage"@,
        "type"@ != "role"@,
        "type"@ != "model"@,
        "type"@ != "content"@,
        "type"@ != "stop_reason"@,
        "type"@ != "stop_sequence"@,
        "type"@ != "usage"@,
        "role"@ != "model"@,
        "role"@ != "content"@,
        "role"@ != "stop_reason"@,
        "role"@ != "stop_sequence"@,
        "role"@ != "usage"@,
        "model"@ != "content"@,
        "model"@ != "stop_reason"@,
        "model"@ != "stop_sequence"@,
        "model"@ != "usage"@,
        "content"@ != "stop_reason"@,
        "content"@ != "stop_sequence"@,
        "content"@ != "usage"@,
        "stop_reason"@ != "stop_sequence"@,
        "stop_reason"@ != "usage"@,
        "stop_sequence"@ != "usage"@,
        "input_tokens"@ != "output_tokens"@,
        "input_tokens"@ != "cache_creation_input_tokens"@,
        "input_tokens"@ != "cache_read_input_tokens"@,
        "output_tokens"@ != "cache_creation_input_tokens"@,
        "output_tokens"@ != "cache_read_input_tokens"@,
        "cache_creation_input_tokens"@ != "cache_read_input_tokens"@,
        "end_turn"@ != "max_tokens"@,
        "end_turn"@ != "tool_use"@,
        "end_turn"@ != "stop_sequence"@,
        "end_turn"@ != "refusal"@,
        "max_tokens"@ != "tool_use"@,
        "max_tokens"@ != "stop_sequence"@,
        "max_tokens"@ != "refusal"@,
        "tool_use"@ != "stop_sequence"@,
        "tool_use"@ != "refusal"@,
        "stop_sequence"@ != "refusal"@,
{
    reveal_strlit("cache_creation_input_tokens");
    reveal_strlit("cache_read_input_tokens");
    reveal_strlit("content");
    reveal_strlit("end_turn");
    reveal_strlit("id");
    reveal_strlit("input_tokens");
    reveal_strlit("max_tokens");
    reveal_strlit("model");
    reveal_strlit("output_tokens");
    reveal_strlit("refusal");
    reveal_strlit("role");
    reveal_strlit("stop_reason");
    reveal_strlit("stop_sequence");
    reveal_strlit("tool_use");
    reveal_strlit("type");
    reveal_strlit("usage");
    assert("cache_creation_input_tokens"@.len() == 27);
    assert("cache_read_input_tokens"@.len() == 23);
    assert("content"@.len() == 7);
    assert("end_turn"@.len() == 8);
    assert("id"@.len() == 2);
    assert("input_tokens"@.len() == 12);
    assert("max_tokens"@.len() == 10);
    assert("model"@.len() == 5);
    assert("output_tokens"@.len() == 13);
    assert("refusal"@.len() == 7);
    assert("role"@.len() == 4);
    assert("stop_reason"@.len() == 11);
    assert("stop_sequence"@.len() == 13);
    assert("tool_use"@.len() == 8);
    assert("type"@.len() == 4);
    assert("usage"@.len() == 5);
    lemma_texts_differ("id"@, "type"@, 0);
    lemma_texts_differ("id"@, "role"@, 0);
    lemma_texts_differ("id"@, "model"@, 0);
    lemma_texts_differ("id"@, "content"@, 0);
    lemma_texts_differ("id"@, "stop_reason"@, 0);
    lemma_texts_differ("id"@, "stop_sequence"@, 0);
    lemma_texts_differ("id"@, "usage"@, 0);
    assert("type"@[0] == 't' && "role"@[0] == 'r');
    lemma_texts_differ("type"@, "role"@, 0);
    lemma_texts_differ("type"@, "model"@, 0);
    lemma_texts_differ("type"@, "content"@, 0);
    lemma_texts_differ("type"@, "stop_reason"@, 0);
    lemma_texts_differ("type"@, "stop_sequence"@, 0);
    lemma_texts_differ("type"@, "usage"@, 0);
    lemma_texts_differ("role"@, "model"@, 0);
    lemma_texts_differ("role"@, "content"@, 0);
    lemma_texts_differ("role"@, "stop_reason"@, 0);
    lemma_texts_differ("role"@, "stop_sequence"@, 0);
    lemma_texts_differ("role"@, "usage"@, 0);
    lemma_texts_differ("model"@, "content"@, 0);
    lemma_texts_differ("model"@, "stop_reason"@, 0);
    lemma_texts_differ("model"@, "stop_sequence"@, 0);
    assert("model"@[0] == 'm' && "usage"@[0] == 'u');
    lemma_texts_differ("model"@, "usage"@, 0);
    lemma_texts_differ("content"@, "stop_reason"@, 0);
    lemma_texts_differ("content"@, "stop_sequence"@, 0);
    lemma_texts_differ("content"@, "usage"@, 0);
    lemma_texts_differ("stop_reason"@, "stop_sequence"@, 0);
    lemma_texts_differ("stop_reason"@, "usage"@, 0);
    lemma_texts_differ("stop_sequence"@, "usage"@, 0);
    lemma_texts_differ("input_tokens"@, "output_tokens"@, 0);
    lemma_texts_differ("input_tokens"@, "cache_creation_input_tokens"@, 0);
    lemma_texts_differ("input_tokens"@, "cache_read_input_tokens"@, 0);
    lemma_texts_differ("output_tokens"@, "cache_creation_input_tokens"@, 0);
    lemma_texts_differ("output_tokens"@, "cache_read_input_tokens"@, 0);
    lemma_texts_differ("cache_creation_input_tokens"@, "cache_read_input_tokens"@, 0);
    lemma_texts_differ("end_turn"@, "max_tokens"@, 0);
    assert("end_turn"@[0] == 'e' && "tool_use"@[0] == 't');
    lemma_texts_differ("end_turn"@, "tool_use"@, 0);
    lemma_texts_differ("end_turn"@, "stop_sequence"@, 0);
    lemma_texts_differ("end_turn"@, "refusal"@, 0);
    lemma_texts_differ("max_tokens"@, "tool_use"@, 0);
    lemma_texts_differ("max_tokens"@, "stop_sequence"@, 0);
    lemma_texts_differ("max_tokens"@, "refusal"@, 0);
    lemma_texts_differ("tool_use"@, "stop_sequence"@, 0);
    lemma_texts_differ("tool_use"@, "refusal"@, 0);
    lemma_texts_differ("stop_sequence"@, "refusal"@, 0);
}

/// An IR response written as an Anthropic Messages body and read back keeps
/// its id (a default one when it had none), the model it was written for,
/// its content blocks, its stop reason, its output and cache token counts,
/// and its input token count whenever that count includes the cached
/// tokens.
#[verifier::rlimit(60)]
#[verifier::spinoff_prover]
pub proof fn law_anthropic_response_round_trip(r: ChatResponseV, model: Seq<char>)
    ensures
        anthropic_parse_response(anthropic_render_response(r, model)) is Ok,
        anthropic_parse_response(anthropic_render_response(r, model))->Ok_0.model == model,
        anthropic_parse_response(anthropic_render_response(r, model))->Ok_0.id == (if r.id.len()
            == 0 {
            "msg_litellm"@
        } else {
            r.id
        }),
        anthropic_parse_response(anthropic_render_response(r, model))->Ok_0.content == r.content,
        anthropic_parse_response(anthropic_render_response(r, model))->Ok_0.stop_reason == (
        match r.stop_reason {
            Some(StopReasonV::Other(t)) => Some(stop_from_anthropic(t)),
            other => other,
        }),
        anthropic_parse_response(anthropic_render_response(r, model))->Ok_0.usage.output_tokens
            == r.usage.output_tokens,
        anthropic_parse_response(
            anthropic_render_response(r, model),
        )->Ok_0.usage.cache_creation_input_tokens == r.usage.cache_creation_input_tokens,
        anthropic_parse_response(
            anthropic_render_response(r, model),
        )->Ok_0.usage.cache_read_input_tokens == r.usage.cache_read_input_tokens,
        r.usage.input_tokens >= r.usage.cache_read_input_tokens + r.usage.cache_creation_input_tokens
            ==> anthropic_parse_response(anthropic_render_response(r, model))->Ok_0.usage
            == r.usage,
{
    broadcast use lemma_get_after_set;

    lemma_anthropic_response_words();
    law_anthropic_blocks_round_trip(r.content);
}


/// The names of the Anthropic message frames and their members are
/// distinct texts.
proof fn lemma_message_frame_words()
    ensures
        "message_delta"@ != "message_start"@,
        "message_delta"@ != "content_block_start"@,
        "message_delta"@ != "content_block_delta"@,
        "message_delta"@ != "content_block_stop"@,
        "delta"@ != "usage"@,
        "type"@ != "usage"@,
        "type"@ != "message"@,
        "type"@ != "delta"@,
{
    reveal_strlit("content_block_delta");
    reveal_strlit("content_block_start");
    reveal_strlit("content_block_stop");
    reveal_strlit("delta");
    reveal_strlit("message");
    reveal_strlit("message_delta");
    reveal_strlit("message_start");
    reveal_strlit("type");
    reveal_strlit("usage");
    assert("content_block_delta"@.len() == 19);
    assert("content_block_start"@.len() == 19);
    assert("content_block_stop"@.len() == 18);
    assert("delta"@.len() == 5);
    assert("message"@.len() == 7);
    assert("message_delta"@.len() == 13);
    assert("message_start"@.len() == 13);
    assert("type"@.len() == 4);
    assert("usage"@.len() == 5);
    assert("message_delta"@[8] == 'd' && "message_start"@[8] == 's');
    lemma_texts_differ("message_delta"@, "message_start"@, 8);
    lemma_texts_differ("message_delta"@, "content_block_start"@, 0);
    lemma_texts_differ("message_delta"@, "content_block_delta"@, 0);
    lemma_texts_differ("message_delta"@, "content_block_stop"@, 0);
    assert("delta"@[0] == 'd' && "usage"@[0] == 'u');
    lemma_texts_differ("delta"@, "usage"@, 0);
    lemma_texts_differ("type"@, "usage"@, 0);
    lemma_texts_differ("type"@, "message"@, 0);
    lemma_texts_differ("type"@, "delta"@, 0);
}

/// The Anthropic stream parser reads back the frames that open and end a
/// message: the message start comes back with its id (a default one when it
/// had none) and the model it was written for, and the message delta with
/// its stop reason, as a whole response's stop reason comes back.
#[verifier::rlimit(60)]
#[verifier::spinoff_prover]
pub proof fn law_anthropic_stream_message_round_trip(model: Seq<char>, e: StreamEventV, start: Usage)
    requires
        e is MessageStart || e is MessageDelta,
    ensures
        ({
            let (kind, doc) = anthropic_frame(model, e);
            let events = anthropic_events(kind, doc, start).0;
            &&& events.len() == 1
            &&& match e {
                StreamEventV::MessageStart { id, model: _ } => events[0] == StreamEventV::MessageStart {
                    id: if id.len() == 0 { "msg_litellm"@ } else { id },
                    model,
                },
                StreamEventV::MessageDelta { stop_reason, usage: _ } => events[0] matches StreamEventV::MessageDelta {
                    stop_reason: s,
                    usage: _,
                } && s == match stop_reason {
                    Some(StopReasonV::Other(t)) => Some(stop_from_anthropic(t)),
                    other => other,
                },
                _ => true,
            }
        }),
{
    broadcast use lemma_get_after_set;

    lemma_stream_words();
    lemma_message_frame_words();
    lemma_anthropic_response_words();
}


/// The member names of a Gemini response body, of its usage, and its finish
/// reasons are distinct texts.
proof fn lemma_gemini_response_words()
    ensures
        "candidates"@ != "usageMetadata"@,
        "modelVersion"@ != "candidates"@,
        "modelVersion"@ != "usageMetadata"@,
        "content"@ != "finishReason"@,
        "content"@ != "index"@,
        "finishReason"@ != "index"@,
        "role"@ != "parts"@,
        "promptTokenCount"@ != "candidatesTokenCount"@,
        "promptTokenCount"@ != "totalTokenCount"@,
        "promptTokenCount"@ != "cachedContentTokenCount"@,
        "candidatesTokenCount"@ != "totalTokenCount"@,
        "candidatesTokenCount"@ != "cachedContentTokenCount"@,
        "totalTokenCount"@ != "cachedContentTokenCount"@,
        "cached_content_token_count"@ != "promptTokenCount"@,
        "cached_content_token_count"@ != "candidatesTokenCount"@,
        "cached_content_token_count"@ != "totalTokenCount"@,
        "STOP"@ != "MAX_TOKENS"@,
        "STOP"@ != "SAFETY"@,
        "STOP"@ != "PROHIBITED_CONTENT"@,
        "MAX_TOKENS"@ != "SAFETY"@,
        "MAX_TOKENS"@ != "PROHIBITED_CONTENT"@,
        "SAFETY"@ != "PROHIBITED_CONTENT"@,
{
    reveal_strlit("MAX_TOKENS");
    reveal_strlit("PROHIBITED_CONTENT");
    reveal_strlit("SAFETY");
    reveal_strlit("STOP");
    reveal_strlit("cachedContentTokenCount");
    reveal_strlit("cached_content_token_count");
    reveal_strlit("candidates");
    reveal_strlit("candidatesTokenCount");
    reveal_strlit("content");
    reveal_strlit("finishReason");
    reveal_strlit("index");
    reveal_strlit("modelVersion");
    reveal_strlit("parts");
    reveal_strlit("promptTokenCount");
    reveal_strlit("role");
    reveal_strlit("totalTokenCount");
    reveal_strlit("usageMetadata");
    assert("MAX_TOKENS"@.len() == 10);
    assert("PROHIBITED_CONTENT"@.len() == 18);
    assert("SAFETY"@.len() == 6);
    assert("STOP"@.len() == 4);
    assert("cachedContentTokenCount"@.len() == 23);
    assert("cached_content_token_count"@.len() == 26);
    assert("candidates"@.len() == 10);
    assert("candidatesTokenCount"@.len() == 20);
    assert("content"@.len() == 7);
    assert("finishReason"@.len() == 12);
    assert("index"@.len() == 5);
    assert("modelVersion"@.len() == 12);
    assert("parts"@.len() == 5);
    assert("promptTokenCount"@.len() == 16);
    assert("role"@.len() == 4);
    assert("totalTokenCount"@.len() == 15);
    assert("usageMetadata"@.len() == 13);
    lemma_texts_differ("candidates"@, "usageMetadata"@, 0);
    lemma_texts_differ("modelVersion"@, "candidates"@, 0);
    lemma_texts_differ("modelVersion"@, "usageMetadata"@, 0);
    lemma_texts_differ("content"@, "finishReason"@, 0);
    lemma_texts_differ("content"@, "index"@, 0);
    lemma_texts_differ("finishReason"@, "index"@, 0);
    lemma_texts_differ("role"@, "parts"@, 0);
    lemma_texts_differ("promptTokenCount"@, "candidatesTokenCount"@, 0);
    lemma_texts_differ("promptTokenCount"@, "totalTokenCount"@, 0);
    lemma_texts_differ("promptTokenCount"@, "cachedContentTokenCount"@, 0);
    lemma_texts_differ("candidatesTokenCount"@, "totalTokenCount"@, 0);
    lemma_texts_differ("candidatesTokenCount"@, "cachedContentTokenCount"@, 0);
    lemma_texts_differ("totalTokenCount"@, "cachedContentTokenCount"@, 0);
    lemma_texts_differ("cached_content_token_count"@, "promptTokenCount"@, 0);
    lemma_texts_differ("cached_content_token_count"@, "candidatesTokenCount"@, 0);
    lemma_texts_differ("cached_content_token_count"@, "totalTokenCount"@, 0);
    lemma_texts_differ("STOP"@, "MAX_TOKENS"@, 0);
    lemma_texts_differ("STOP"@, "SAFETY"@, 0);
    lemma_texts_differ("STOP"@, "PROHIBITED_CONTENT"@, 0);
    lemma_texts_differ("MAX_TOKENS"@, "SAFETY"@, 0);
    lemma_texts_differ("MAX_TOKENS"@, "PROHIBITED_CONTENT"@, 0);
    lemma_texts_differ("SAFETY"@, "PROHIBITED_CONTENT"@, 0);
}

/// What Gemini reads back of a block it wrote as the part at `ordinal`: a
/// thought without its signature, a tool call with the surrogate id made from
/// its name, arguments and position and with its arguments normalized, any
/// other block as it was.
pub open spec fn gemini_block_read_back(b: BlockV, ordinal: usize) -> BlockV {
    match b {
        BlockV::Thinking { text, signature: _ } => BlockV::Thinking { text, signature: None },
        BlockV::ToolUse { id: _, name, input } => BlockV::ToolUse {
            id: surrogate_id_spec(name, normalize_args_spec(input), ordinal),
            name,
            input: normalize_args_spec(input),
        },
        _ => b,
    }
}

pub open spec fn no_tool_results(c: Seq<BlockV>) -> bool {
    forall|i: int| 0 <= i < c.len() ==> !(#[trigger] c[i] is ToolResult)
}

/// Gemini reads back each block of a response it wrote, in order, each as
/// the part at its own position.
proof fn lemma_gemini_parts_read_back(c: Seq<BlockV>)
    requires
        no_tool_results(c),
        c.len() <= usize::MAX,
    ensures
        response_parts(c).len() == c.len(),
        parts_blocks(response_parts(c)) == Seq::new(
            c.len(),
            |i: int| gemini_block_read_back(c[i], i as usize),
        ),
    decreases c.len(),
{
    if c.len() > 0 {
        let init = c.drop_last();
        assert(no_tool_results(init)) by {
            assert forall|i: int| 0 <= i < init.len() implies !(#[trigger] init[i] is ToolResult) by {
                assert(init[i] == c[i]);
            }
        }
        lemma_gemini_parts_read_back(init);
        assert(c.last() == c[c.len() - 1]);
        law_gemini_part_round_trip(c.last(), (c.len() - 1) as usize);
        let part = block_to_part_spec(c.last())->Some_0;
        assert(response_parts(c) == response_parts(init).push(part));
        assert(response_parts(c).drop_last() =~= response_parts(init));
        assert(parts_blocks(response_parts(c)) =~= Seq::new(
            c.len(),
            |i: int| gemini_block_read_back(c[i], i as usize),
        ));
    }
}

/// The stop reason Gemini reads back when no tool call came back: an end of
/// turn, a token limit or a content filter as it was, anything else (or no
/// reason) as the end of the turn.
pub open spec fn gemini_stop_read_back(r: Option<StopReasonV>) -> StopReasonV {
    match r {
        Some(StopReasonV::MaxTokens) => StopReasonV::MaxTokens,
        Some(StopReasonV::ContentFilter) => StopReasonV::ContentFilter,
        _ => StopReasonV::EndTurn,
    }
}

/// An IR response written as a Gemini body and read back keeps its blocks,
/// in order, as Gemini reads back each part (a thought without its
/// signature, a tool call under a surrogate id), its stop reason as far as
/// Gemini has one (a tool use whenever a tool call came back), and its input,
/// output and cache-read token counts. A surfaced provider error is written
/// as an error envelope instead, and is not part of this.
#[verifier::rlimit(60)]
#[verifier::spinoff_prover]
pub proof fn law_gemini_response_round_trip(r: ChatResponseV)
    requires
        !(r.stop_reason matches Some(StopReasonV::Other(_))),
        no_tool_results(r.content),
        r.content.len() <= usize::MAX,
    ensures
        gemini_parse_response(gemini_render_response(r)) is Ok,
        gemini_parse_response(gemini_render_response(r))->Ok_0.content == Seq::new(
            r.content.len(),
            |i: int| gemini_block_read_back(r.content[i], i as usize),
        ),
        gemini_parse_response(gemini_render_response(r))->Ok_0.usage == (Usage {
            input_tokens: r.usage.input_tokens,
            output_tokens: r.usage.output_tokens,
            cache_creation_input_tokens: 0,
            cache_read_input_tokens: r.usage.cache_read_input_tokens,
        }),
        any_tool_use(r.content) ==> gemini_parse_response(gemini_render_response(r))->Ok_0.stop_reason
            == Some(StopReasonV::ToolUse),
        !any_tool_use(r.content) ==> gemini_parse_response(
            gemini_render_response(r),
        )->Ok_0.stop_reason == Some(gemini_stop_read_back(r.stop_reason)),
{
    broadcast use lemma_get_after_set;

    lemma_gemini_response_words();
    lemma_gemini_parts_read_back(r.content);
    let back = Seq::new(r.content.len(), |i: int| gemini_block_read_back(r.content[i], i as usize));
    assert(any_tool_use(back) == any_tool_use(r.content)) by {
        if any_tool_use(r.content) {
            let i = choose|i: int| 0 <= i < r.content.len() && r.content[i] is ToolUse;
            assert(back[i] is ToolUse);
        }
        if any_tool_use(back) {
            let i = choose|i: int| 0 <= i < back.len() && back[i] is ToolUse;
            assert(r.content[i] is ToolUse);
        }
    }
}


/// The OpenAI Chat stream parser reads back the end of a message the OpenAI
/// Chat stream renderer writes: the chunk with the finish reason leaves the
/// parser holding the stop reason an OpenAI Chat client reads back, and the
/// usage chunk after it, when there is one, leaves it holding the input,
/// output and cache-read token counts.
#[verifier::rlimit(60)]
#[verifier::spinoff_prover]
pub proof fn law_chat_stream_end_round_trip(
    r: ChatRendererV,
    stop_reason: Option<StopReasonV>,
    usage: Option<Usage>,
    p: ChatParserV,
)
    ensures
        exists|doc: JsonV, rest: Seq<u8>|
            #![trigger chat_events(p, doc), rest.len()]
            chat_data_bytes(doc) + rest == chat_frame(
                r,
                StreamEventV::MessageDelta { stop_reason, usage },
            ).0 && chat_events(p, doc).1.stop_reason == Some(chat_stop_read_back(stop_reason))
                && match usage {
                None => rest.len() == 0,
                Some(u) => exists|doc2: JsonV|
                    #[trigger] chat_data_bytes(doc2) == rest && chat_events(
                        chat_events(p, doc).1,
                        doc2,
                    ).1.usage == Some(
                        Usage {
                            input_tokens: u.input_tokens,
                            output_tokens: u.output_tokens,
                            cache_creation_input_tokens: 0,
                            cache_read_input_tokens: u.cache_read_input_tokens,
                        },
                    ),
            },
{
    broadcast use lemma_get_after_set;

    lemma_chat_chunk_words();
    lemma_chat_response_words();
    reveal_strlit("stop");
    reveal_strlit("function_call");
    let e = StreamEventV::MessageDelta { stop_reason, usage };
    let head = JsonV::empty_object().set("id"@, JsonV::Str(chunk_id(r))).set(
        "object"@,
        JsonV::Str("chat.completion.chunk"@),
    ).set("created"@, JsonV::UInt(0)).set("model"@, JsonV::Str(r.model));
    let reason = match stop_reason {
        Some(x) => stop_to_openai(x),
        None => "stop"@,
    };
    let c = JsonV::empty_object().set("index"@, JsonV::UInt(0)).set(
        "delta"@,
        JsonV::empty_object(),
    ).set("finish_reason"@, JsonV::Str(reason));
    let doc = head.set("choices"@, JsonV::Array(seq![c]));
    let s2 = ChatParserV { started: true, ..p };
    assert(seq![c].drop_last() =~= Seq::<JsonV>::empty());
    assert(seq![c].last() == c);
    assert(choices_spec(s2, Seq::<JsonV>::empty()) == (Seq::<StreamEventV>::empty(), s2));
    assert(choice_spec(s2, c).1.stop_reason == Some(stop_from_openai(reason)));
    assert(chat_events(p, doc).1.stop_reason == Some(chat_stop_read_back(stop_reason)));
    match usage {
        None => {
            let rest = Seq::<u8>::empty();
            assert(chat_data_bytes(doc) + rest =~= chat_frame(r, e).0);
            assert(rest.len() == 0);
        },
        Some(u) => {
            let doc2 = head.set("choices"@, JsonV::Array(Seq::empty())).set(
                "usage"@,
                openai_usage_spec(u),
            );
            let rest = chat_data_bytes(doc2);
            assert(chat_data_bytes(doc) + rest == chat_frame(r, e).0);
            assert(rest.len() == rest.len());
            let q = chat_events(p, doc).1;
            assert(doc2.get("usage"@) == Some(openai_usage_spec(u)));
            assert(chat_events(q, doc2).1.usage == Some(
                Usage {
                    input_tokens: u.input_tokens,
                    output_tokens: u.output_tokens,
                    cache_creation_input_tokens: 0,
                    cache_read_input_tokens: u.cache_read_input_tokens,
                },
            ));
        },
    }
}


/// The names of the Responses frames that end a response, and their
/// members, are distinct texts.
proof fn lemma_responses_end_words()
    ensures
        "response.completed"@ != "response.created"@,
        "response.completed"@ != "response.output_item.added"@,
        "response.completed"@ != "response.content_part.added"@,
        "response.completed"@ != "response.output_text.delta"@,
        "response.completed"@ != "response.reasoning_summary_text.delta"@,
        "response.completed"@ != "response.reasoning_text.delta"@,
        "response.completed"@ != "response.function_call_arguments.delta"@,
        "response.completed"@ != "response.output_item.done"@,
        "response.incomplete"@ != "response.created"@,
        "response.incomplete"@ != "response.output_item.added"@,
        "response.incomplete"@ != "response.content_part.added"@,
        "response.incomplete"@ != "response.output_text.delta"@,
        "response.incomplete"@ != "response.reasoning_summary_text.delta"@,
        "response.incomplete"@ != "response.reasoning_text.delta"@,
        "response.incomplete"@ != "response.function_call_arguments.delta"@,
        "response.incomplete"@ != "response.output_item.done"@,
        "response.failed"@ != "response.created"@,
        "response.failed"@ != "response.output_item.added"@,
        "response.failed"@ != "response.content_part.added"@,
        "response.failed"@ != "response.output_text.delta"@,
        "response.failed"@ != "response.reasoning_summary_text.delta"@,
        "response.failed"@ != "response.reasoning_text.delta"@,
        "response.failed"@ != "response.function_call_arguments.delta"@,
        "response.failed"@ != "response.output_item.done"@,
        "response.completed"@ != "response.incomplete"@,
        "response.completed"@ != "response.failed"@,
        "response.incomplete"@ != "response.failed"@,
        "type"@ != "response"@,
        "usage"@ != "incomplete_details"@,
        "error"@ != "usage"@,
{
    reveal_strlit("error");
    reveal_strlit("incomplete_details");
    reveal_strlit("response");
    reveal_strlit("response.completed");
    reveal_strlit("response.content_part.added");
    reveal_strlit("response.created");
    reveal_strlit("response.failed");
    reveal_strlit("response.function_call_arguments.delta");
    reveal_strlit("response.incomplete");
    reveal_strlit("response.output_item.added");
    reveal_strlit("response.output_item.done");
    reveal_strlit("response.output_text.delta");
    reveal_strlit("response.reasoning_summary_text.delta");
    reveal_strlit("response.reasoning_text.delta");
    reveal_strlit("type");
    reveal_strlit("usage");
    assert("error"@.len() == 5);
    assert("incomplete_details"@.len() == 18);
    assert("response"@.len() == 8);
    assert("response.completed"@.len() == 18);
    assert("response.content_part.added"@.len() == 27);
    assert("response.created"@.len() == 16);
    assert("response.failed"@.len() == 15);
    assert("response.function_call_arguments.delta"@.len() == 38);
    assert("response.incomplete"@.len() == 19);
    assert("response.output_item.added"@.len() == 26);
    assert("response.output_item.done"@.len() == 25);
    assert("response.output_text.delta"@.len() == 26);
    assert("response.reasoning_summary_text.delta"@.len() == 37);
    assert("response.reasoning_text.delta"@.len() == 29);
    assert("type"@.len() == 4);
    assert("usage"@.len() == 5);
    lemma_texts_differ("response.completed"@, "response.created"@, 0);
    lemma_texts_differ("response.completed"@, "response.output_item.added"@, 0);
    lemma_texts_differ("response.completed"@, "response.content_part.added"@, 0);
    lemma_texts_differ("response.completed"@, "response.output_text.delta"@, 0);
    lemma_texts_differ("response.completed"@, "response.reasoning_summary_text.delta"@, 0);
    lemma_texts_differ("response.completed"@, "response.reasoning_text.delta"@, 0);
    lemma_texts_differ("response.completed"@, "response.function_call_arguments.delta"@, 0);
    lemma_texts_differ("response.completed"@, "response.output_item.done"@, 0);
    lemma_texts_differ("response.incomplete"@, "response.created"@, 0);
    lemma_texts_differ("response.incomplete"@, "response.output_item.added"@, 0);
    lemma_texts_differ("response.incomplete"@, "response.content_part.added"@, 0);
    lemma_texts_differ("response.incomplete"@, "response.output_text.delta"@, 0);
    lemma_texts_differ("response.incomplete"@, "response.reasoning_summary_text.delta"@, 0);
    lemma_texts_differ("response.incomplete"@, "response.reasoning_text.delta"@, 0);
    lemma_texts_differ("response.incomplete"@, "response.function_call_arguments.delta"@, 0);
    lemma_texts_differ("response.incomplete"@, "response.output_item.done"@, 0);
    lemma_texts_differ("response.failed"@, "response.created"@, 0);
    lemma_texts_differ("response.failed"@, "response.output_item.added"@, 0);
    lemma_texts_differ("response.failed"@, "response.content_part.added"@, 0);
    lemma_texts_differ("response.failed"@, "response.output_text.delta"@, 0);
    lemma_texts_differ("response.failed"@, "response.reasoning_summary_text.delta"@, 0);
    lemma_texts_differ("response.failed"@, "response.reasoning_text.delta"@, 0);
    lemma_texts_differ("response.failed"@, "response.function_call_arguments.delta"@, 0);
    lemma_texts_differ("response.failed"@, "response.output_item.done"@, 0);
    lemma_texts_differ("response.completed"@, "response.incomplete"@, 0);
    lemma_texts_differ("response.completed"@, "response.failed"@, 0);
    lemma_texts_differ("response.incomplete"@, "response.failed"@, 0);
    lemma_texts_differ("type"@, "response"@, 0);
    lemma_texts_differ("usage"@, "incomplete_details"@, 0);
    assert("error"@[0] == 'e' && "usage"@[0] == 'u');
    lemma_texts_differ("error"@, "usage"@, 0);
}

/// The stop reason the OpenAI Responses stream parser reads back from the
/// frame that ends a response: a token limit or a content filter as a token
/// limit (both are an incomplete response), a surfaced error as an error
/// carrying its message, anything else as a tool use when a tool call was
/// seen and the end of the turn otherwise.
pub open spec fn responses_stop_read_back(r: Option<StopReasonV>, saw_tool: bool) -> StopReasonV {
    match r {
        Some(StopReasonV::MaxTokens) => StopReasonV::MaxTokens,
        Some(StopReasonV::ContentFilter) => StopReasonV::MaxTokens,
        Some(StopReasonV::Other(m)) => StopReasonV::Other("error: "@ + m),
        _ => if saw_tool {
            StopReasonV::ToolUse
        } else {
            StopReasonV::EndTurn
        },
    }
}

/// The OpenAI Responses stream parser reads back the end of a response the
/// OpenAI Responses stream renderer writes: for a message it has started and
/// not ended, with no stop reason of its own yet, the closing frame closes
/// the blocks it holds open, then gives the stop reason as above with the
/// input, output and cache-read token counts the renderer was handed (none
/// counts as zero), then ends the message.
#[verifier::rlimit(60)]
#[verifier::spinoff_prover]
pub proof fn law_responses_stream_end_round_trip(r: ResponsesRendererV, p: ResponsesParserV)
    requires
        p.started,
        !p.message_stopped,
        p.stop_reason is None,
    ensures
        exists|name: Seq<char>, doc: JsonV|
            #[trigger] responses_frame_bytes((name, doc)) == responses_frame(
                r,
                StreamEventV::MessageStop,
            ).0 && responses_events(p, doc).0 == stops_of(p.opened) + seq![
                StreamEventV::MessageDelta {
                    stop_reason: Some(responses_stop_read_back(r.stop_reason, p.saw_tool)),
                    usage: Some(
                        match r.usage {
                            Some(u) => Usage {
                                input_tokens: u.input_tokens,
                                output_tokens: u.output_tokens,
                                cache_creation_input_tokens: 0,
                                cache_read_input_tokens: u.cache_read_input_tokens,
                            },
                            None => zero_usage(),
                        },
                    ),
                },
                StreamEventV::MessageStop,
            ],
{
    broadcast use lemma_get_after_set;

    lemma_responses_stream_words();
    lemma_responses_end_words();
    lemma_responses_response_words();
    let u = match r.usage {
        Some(u) => u,
        None => zero_usage(),
    };
    let usage = responses_usage_spec(u);
    let base = JsonV::empty_object().set("id"@, JsonV::Str(r.id)).set(
        "object"@,
        JsonV::Str("response"@),
    ).set("model"@, JsonV::Str(r.model));
    let (name, doc) = match r.stop_reason {
        Some(StopReasonV::Other(message)) => (
            "response.failed"@,
            typed("response.failed"@).set(
                "response"@,
                base.set("status"@, JsonV::Str("failed"@)).set(
                    "error"@,
                    JsonV::empty_object().set("message"@, JsonV::Str(message)),
                ).set("usage"@, usage),
            ),
        ),
        _ => {
            let reason: Option<Seq<char>> = match r.stop_reason {
                Some(StopReasonV::MaxTokens) => Some("max_output_tokens"@),
                Some(StopReasonV::ContentFilter) => Some("content_filter"@),
                _ => None,
            };
            let event = if reason is Some {
                "response.incomplete"@
            } else {
                "response.completed"@
            };
            let response = base.set(
                "status"@,
                JsonV::Str(if reason is Some { "incomplete"@ } else { "completed"@ }),
            ).set("usage"@, usage);
            let response = match reason {
                Some(x) => response.set(
                    "incomplete_details"@,
                    JsonV::empty_object().set("reason"@, JsonV::Str(x)),
                ),
                None => response,
            };
            (event, typed(event).set("response"@, response))
        },
    };
    assert(responses_frame_bytes((name, doc)) == responses_frame(r, StreamEventV::MessageStop).0);
    assert(opt_get(doc.get("response"@), "usage"@) == Some(usage));
    reveal_strlit("response failed");
    assert(responses_events(p, doc).0 == stops_of(p.opened) + seq![
        StreamEventV::MessageDelta {
            stop_reason: Some(responses_stop_read_back(r.stop_reason, p.saw_tool)),
            usage: Some(usage_from_responses_spec(Some(usage))),
        },
        StreamEventV::MessageStop,
    ]);
}


/// The names of a Gemini function call's members are distinct texts.
proof fn lemma_function_call_words()
    ensures
        "name"@ != "args"@,
        "id"@ != "name"@,
        "id"@ != "args"@,
        "functionCall"@ != "function_call"@,
{
    reveal_strlit("name");
    reveal_strlit("args");
    reveal_strlit("id");
    reveal_strlit("functionCall");
    reveal_strlit("function_call");
    assert("name"@[0] == 'n' && "args"@[0] == 'a' && "id"@[0] == 'i');
    assert("functionCall"@.len() == 12 && "function_call"@.len() == 13);
    lemma_texts_differ("name"@, "args"@, 0);
    lemma_texts_differ("id"@, "name"@, 0);
    lemma_texts_differ("id"@, "args"@, 0);
    lemma_texts_differ("functionCall"@, "function_call"@, 0);
}

/// The Gemini stream parser reads back the tool call the Gemini stream
/// renderer sends when a tool-use block ends: a whole tool-use block with the
/// call's name, its buffered arguments as JSON (an empty object where they
/// are not JSON), under the surrogate id Gemini's missing call ids get, and
/// closed at once.
pub proof fn law_gemini_stream_tool_round_trip(r: GeminiRendererV, index: usize, p: GeminiParserV)
    requires
        r.tool_args.contains_key(index),
    ensures
        exists|doc: JsonV|
            #[trigger] data_bytes(doc) == gemini_frame(
                r,
                StreamEventV::ContentBlockStop { index },
            ).0 && ({
                let (name, buf) = r.tool_args[index];
                let events = gemini_events(p, doc).0;
                &&& events.len() >= 3
                &&& events.subrange(events.len() - 3, events.len() as int) == seq![
                    StreamEventV::ContentBlockStart {
                        index: p.next_index,
                        block: BlockStartV::ToolUse {
                            id: surrogate_id_spec(name, args_of(buf), p.next_index),
                            name,
                        },
                    },
                    StreamEventV::ToolUseInputDelta {
                        index: p.next_index,
                        partial_json: serde_text(args_of(buf)),
                    },
                    StreamEventV::ContentBlockStop { index: p.next_index },
                ]
            }),
{
    broadcast use lemma_get_after_set;

    lemma_gemini_chunk_words();
    lemma_function_call_words();
    let (name, buf) = r.tool_args[index];
    let fc = obj1("name"@, JsonV::Str(name)).set("args"@, args_of(buf));
    let part = obj1("functionCall"@, fc);
    let content = obj1("role"@, JsonV::Str("model"@)).set("parts"@, JsonV::Array(seq![part]));
    let c = obj1("content"@, content).set("index"@, JsonV::UInt(0));
    let doc = obj1("candidates"@, JsonV::Array(seq![c]));
    assert(data_bytes(doc) == gemini_frame(r, StreamEventV::ContentBlockStop { index }).0);
    assert(seq![part].drop_last() =~= Seq::<JsonV>::empty());
    assert(seq![part].last() == part);
    let s1 = GeminiParserV { started: true, usage: p.usage, ..p };
    assert(parts_spec(s1, Seq::<JsonV>::empty()) == (Seq::<StreamEventV>::empty(), s1));
    let fce = function_call_spec(s1, fc).0;
    let events = gemini_events(p, doc).0;
    assert(fc.get_str("id"@) is None);
    assert(events == (if p.started {
        Seq::<StreamEventV>::empty()
    } else {
        seq![StreamEventV::MessageStart { id: Seq::empty(), model: doc.str_at("modelVersion"@) }]
    }) + (Seq::<StreamEventV>::empty() + fce));
    assert(events.subrange(events.len() - 3, events.len() as int) =~= fce);
}


/// The Gemini stream parser reads back the end of a message the Gemini
/// stream renderer writes: the final chunk leaves the parser holding the stop
/// reason a Gemini client reads back (a surfaced error as an error carrying
/// its message) and, when the renderer was handed usage, the input, output
/// and cache-read token counts.
#[verifier::rlimit(60)]
#[verifier::spinoff_prover]
pub proof fn law_gemini_stream_end_round_trip(r: GeminiRendererV, p: GeminiParserV)
    ensures
        exists|doc: JsonV|
            #[trigger] data_bytes(doc) == gemini_frame(r, StreamEventV::MessageStop).0 && ({
                let q = gemini_events(p, doc).1;
                &&& q.stop_reason == Some(
                    match r.stop_reason {
                        Some(StopReasonV::Other(m)) => StopReasonV::Other("error: "@ + m),
                        other => gemini_stop_read_back(other),
                    },
                )
                &&& (!(r.stop_reason matches Some(StopReasonV::Other(_))) && r.usage is Some)
                    ==> q.usage == Some(
                    Usage {
                        input_tokens: r.usage->Some_0.input_tokens,
                        output_tokens: r.usage->Some_0.output_tokens,
                        cache_creation_input_tokens: 0,
                        cache_read_input_tokens: r.usage->Some_0.cache_read_input_tokens,
                    },
                )
            }),
{
    broadcast use lemma_get_after_set;

    lemma_gemini_chunk_words();
    lemma_gemini_response_words();
    reveal_strlit("error");
    reveal_strlit("message");
    reveal_strlit("code");
    reveal_strlit("status");
    assert("message"@[0] == 'm' && "code"@[0] == 'c' && "status"@[0] == 's');
    lemma_texts_differ("message"@, "status"@, 0);
    lemma_texts_differ("message"@, "code"@, 0);
    let doc = match r.stop_reason {
        Some(StopReasonV::Other(message)) => error_doc(message),
        _ => chunk_doc(
            Seq::empty(),
            Some(
                match r.stop_reason {
                    Some(x) => stop_to_gemini(x),
                    None => "STOP"@,
                },
            ),
            r.usage,
        ),
    };
    assert(data_bytes(doc) == gemini_frame(r, StreamEventV::MessageStop).0);
    reveal_strlit("usageMetadata");
    reveal_strlit("usage_metadata");
    assert("error"@[0] == 'e' && "usageMetadata"@[0] == 'u' && "usage_metadata"@[0] == 'u');
    lemma_texts_differ("error"@, "usageMetadata"@, 0);
    lemma_texts_differ("error"@, "usage_metadata"@, 0);
    match r.stop_reason {
        Some(StopReasonV::Other(message)) => {
            assert(doc.get("error"@) is Some);
        },
        _ => {
            assert(doc.get("error"@) is None);
            let s1 = GeminiParserV {
                started: true,
                usage: match field(doc, "usageMetadata"@, "usage_metadata"@) {
                    Some(u) => Some(usage_from_gemini_spec(Some(u))),
                    None => p.usage,
                },
                ..p
            };
            assert(parts_spec(s1, Seq::<JsonV>::empty()) == (Seq::<StreamEventV>::empty(), s1));
            let c = first_candidate(doc)->Some_0;
            assert(candidate_parts(Some(c)) == Some(Seq::<JsonV>::empty()));
            match r.usage {
                Some(u) => {
                    assert(field(doc, "usageMetadata"@, "usage_metadata"@) == Some(gemini_usage_spec(u)));
                },
                None => {},
            }
        },
    }
}

} // verus!
