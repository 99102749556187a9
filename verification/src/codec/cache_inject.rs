//! Gateway-side placement of Anthropic prompt-cache breakpoints for clients
//! that cannot express `cache_control` themselves.
//!
//! Best-effort: with no tokenizer, sizes are estimated from byte counts, and a
//! prefix is only marked once its cumulative estimate clears the minimum
//! cacheable size (under-counting just skips a breakpoint, which is safe).
use vstd::prelude::*;
use vstd::utf8::encode_utf8;
use crate::ir::{BlockV, ChatRequest, ChatRequestV, ContentBlock, ImageSource, ImageSourceV, Message, MessageV, ToolDef, ToolDefV, blocks_view, lemma_blocks_view, messages_view, tools_view};
use crate::json::{serde_text, to_json_text};

verus! {

broadcast use vstd::string::group_string_axioms;

/// Anthropic's cap on cache breakpoints per request.
pub const ANTHROPIC_MAX_BREAKPOINTS: usize = 4;

/// Above this many messages a single tail breakpoint can fall outside
/// Anthropic's 20-block read lookback, so a second anchor goes mid-history.
pub const LONG_HISTORY_MESSAGES: usize = 20;

/// `a + b` as release builds compute it on `usize`.
pub open spec fn wadd(a: usize, b: usize) -> usize {
    vstd::wrapping::usize_specs::wrapping_add(a, b)
}

/// The length in UTF-8 bytes of a text.
pub open spec fn byte_len(s: Seq<char>) -> usize {
    encode_utf8(s).len() as usize
}

/// The size of a content block, in bytes of its text (nested results summed).
pub open spec fn block_chars_spec(b: BlockV) -> usize
    decreases b,
{
    match b {
        BlockV::Text { text } => byte_len(text),
        BlockV::Thinking { text, signature: _ } => byte_len(text),
        BlockV::ToolUse { id: _, name, input } => wadd(byte_len(name), byte_len(serde_text(input))),
        BlockV::ToolResult { tool_use_id: _, content, is_error: _ } => blocks_chars_spec(content),
        BlockV::Image { source } => match source {
            ImageSourceV::Base64 { media_type: _, data } => byte_len(data),
            ImageSourceV::Url(u) => byte_len(u),
        },
    }
}

pub open spec fn blocks_chars_spec(s: Seq<BlockV>) -> usize
    decreases s,
{
    if s.len() == 0 {
        0
    } else {
        wadd(blocks_chars_spec(s.drop_last()), block_chars_spec(s.last()))
    }
}

pub open spec fn tool_chars_spec(t: ToolDefV) -> usize {
    wadd(
        wadd(
            byte_len(t.name),
            match t.description {
                Some(d) => byte_len(d),
                None => 0,
            },
        ),
        byte_len(serde_text(t.parameters)),
    )
}

pub open spec fn tools_chars_spec(s: Seq<ToolDefV>) -> usize
    decreases s.len(),
{
    if s.len() == 0 {
        0
    } else {
        wadd(tools_chars_spec(s.drop_last()), tool_chars_spec(s.last()))
    }
}

pub open spec fn msgs_chars_spec(s: Seq<MessageV>) -> usize
    decreases s.len(),
{
    if s.len() == 0 {
        0
    } else {
        wadd(msgs_chars_spec(s.drop_last()), blocks_chars_spec(s.last().content))
    }
}

/// The token estimate of a byte count.
pub open spec fn estimate(chars: usize, chars_per_token: u64) -> u64 {
    (chars as u64) / (if chars_per_token >= 1 { chars_per_token } else { 1 })
}

/// The breakpoints placed on a request whose client set none: the tightest
/// layers (tools, then system, then messages) whose cumulative prefix clears
/// `min_tokens`, within a budget of `min(max_breakpoints, 4)`; on messages the
/// tail, preceded by a mid-history anchor for histories over 20 messages
/// when the budget allows both.
pub open spec fn placed_breakpoints(
    r: ChatRequestV,
    max_breakpoints: usize,
    min_tokens: u64,
    chars_per_token: u64,
) -> (bool, bool, Seq<usize>) {
    let b0: int = if max_breakpoints < ANTHROPIC_MAX_BREAKPOINTS {
        max_breakpoints as int
    } else {
        ANTHROPIC_MAX_BREAKPOINTS as int
    };
    let cum1 = tools_chars_spec(r.tools);
    let t = r.tools.len() > 0 && b0 > 0 && estimate(cum1, chars_per_token) >= min_tokens;
    let b1 = if t { b0 - 1 } else { b0 };
    let cum2 = wadd(cum1, blocks_chars_spec(r.system));
    let s = r.system.len() > 0 && b1 > 0 && estimate(cum2, chars_per_token) >= min_tokens;
    let b2 = if s { b1 - 1 } else { b1 };
    let cum3 = wadd(cum2, msgs_chars_spec(r.messages));
    let m = r.messages.len() > 0 && b2 > 0 && estimate(cum3, chars_per_token) >= min_tokens;
    let n = r.messages.len();
    let anchor = m && n > LONG_HISTORY_MESSAGES && b2 >= 2;
    let b3 = if anchor { b2 - 1 } else { b2 };
    let msgs = (if anchor { seq![(n / 2) as usize] } else { Seq::empty() }) + (if m && b3 > 0 {
        seq![(n - 1) as usize]
    } else {
        Seq::empty()
    });
    (t, s, msgs)
}

/// The request after auto-injection: unchanged when the client set any
/// breakpoint or the budget is zero, else with [`placed_breakpoints`].
pub open spec fn inject_spec(
    r: ChatRequestV,
    max_breakpoints: usize,
    min_tokens: u64,
    chars_per_token: u64,
) -> ChatRequestV {
    if r.cache_tools || r.cache_system || r.cache_messages.len() > 0 || max_breakpoints == 0 {
        r
    } else {
        let p = placed_breakpoints(r, max_breakpoints, min_tokens, chars_per_token);
        ChatRequestV { cache_tools: p.0, cache_system: p.1, cache_messages: p.2, ..r }
    }
}

fn text_bytes(s: &String) -> (r: usize)
    ensures
        r == byte_len(s@),
{
    s.as_str().as_bytes().len()
}

fn block_chars(b: &ContentBlock) -> (r: usize)
    ensures
        r == block_chars_spec(b@),
    decreases b,
{
    match b {
        ContentBlock::Text { text } => text_bytes(text),
        ContentBlock::Thinking { text, signature: _ } => text_bytes(text),
        ContentBlock::ToolUse { id: _, name, input } => {
            let rendered = to_json_text(input);
            text_bytes(name).wrapping_add(text_bytes(&rendered))
        },
        ContentBlock::ToolResult { tool_use_id: _, content, is_error: _ } => blocks_chars(content),
        ContentBlock::Image { source } => match source {
            ImageSource::Base64 { media_type: _, data } => text_bytes(data),
            ImageSource::Url(u) => text_bytes(u),
        },
    }
}

fn blocks_chars(v: &Vec<ContentBlock>) -> (r: usize)
    ensures
        r == blocks_chars_spec(blocks_view(v@)),
    decreases v@,
{
    let ghost bs = blocks_view(v@);
    proof {
        lemma_blocks_view(v@);
    }
    let mut total: usize = 0;
    let mut i: usize = 0;
    while i < v.len()
        invariant
            i <= v.len(),
            bs == blocks_view(v@),
            bs.len() == v.len(),
            forall|k: int| 0 <= k < v.len() ==> #[trigger] bs[k] == v@[k]@,
            total == blocks_chars_spec(bs.take(i as int)),
        decreases v.len() - i,
    {
        assert(bs.take(i + 1).drop_last() =~= bs.take(i as int));
        assert(bs.take(i + 1).last() == v@[i as int]@);
        total = total.wrapping_add(block_chars(&v[i]));
        i = i + 1;
    }
    assert(bs.take(v.len() as int) =~= bs);
    total
}

fn tool_chars(t: &ToolDef) -> (r: usize)
    ensures
        r == tool_chars_spec(t@),
{
    let d: usize = match &t.description {
        Some(d) => text_bytes(d),
        None => 0,
    };
    let rendered = to_json_text(&t.parameters);
    text_bytes(&t.name).wrapping_add(d).wrapping_add(text_bytes(&rendered))
}

fn tools_chars(v: &Vec<ToolDef>) -> (r: usize)
    ensures
        r == tools_chars_spec(tools_view(v@)),
{
    let ghost tv = tools_view(v@);
    let mut total: usize = 0;
    let mut i: usize = 0;
    while i < v.len()
        invariant
            i <= v.len(),
            tv == tools_view(v@),
            tv.len() == v.len(),
            total == tools_chars_spec(tv.take(i as int)),
        decreases v.len() - i,
    {
        assert(tv.take(i + 1).drop_last() =~= tv.take(i as int));
        assert(tv.take(i + 1).last() == v@[i as int]@);
        total = total.wrapping_add(tool_chars(&v[i]));
        i = i + 1;
    }
    assert(tv.take(v.len() as int) =~= tv);
    total
}

fn msgs_chars(v: &Vec<Message>) -> (r: usize)
    ensures
        r == msgs_chars_spec(messages_view(v@)),
{
    let ghost mv = messages_view(v@);
    let mut total: usize = 0;
    let mut i: usize = 0;
    while i < v.len()
        invariant
            i <= v.len(),
            mv == messages_view(v@),
            mv.len() == v.len(),
            total == msgs_chars_spec(mv.take(i as int)),
        decreases v.len() - i,
    {
        assert(mv.take(i + 1).drop_last() =~= mv.take(i as int));
        assert(mv.take(i + 1).last() == v@[i as int]@);
        total = total.wrapping_add(blocks_chars(&v[i].content));
        i = i + 1;
    }
    assert(mv.take(v.len() as int) =~= mv);
    total
}

fn estimate_exec(chars: usize, cpt: u64) -> (r: u64)
    requires
        cpt >= 1,
    ensures
        r == estimate(chars, cpt),
{
    (chars as u64) / cpt
}

/// Places ephemeral cache breakpoints on the stable prefix (tools, system,
/// leading messages) of a request whose client set none; a request that has
/// any breakpoint is left as it is.
pub fn auto_inject_anthropic_breakpoints(
    req: &mut ChatRequest,
    max_breakpoints: usize,
    min_tokens: u64,
    chars_per_token: u64,
)
    ensures
        final(req)@ == inject_spec(old(req)@, max_breakpoints, min_tokens, chars_per_token),
{
    if !req.cache.is_empty() {
        return;
    }
    let mut budget: usize = if max_breakpoints < ANTHROPIC_MAX_BREAKPOINTS {
        max_breakpoints
    } else {
        ANTHROPIC_MAX_BREAKPOINTS
    };
    if budget == 0 {
        return;
    }
    let ghost r0 = req@;
    let ghost p = placed_breakpoints(r0, max_breakpoints, min_tokens, chars_per_token);
    let cpt: u64 = if chars_per_token >= 1 {
        chars_per_token
    } else {
        1
    };
    let mut cumulative = tools_chars(&req.tools);
    if req.tools.len() > 0 && budget > 0 && estimate_exec(cumulative, cpt) >= min_tokens {
        req.cache.tools = true;
        budget = budget - 1;
    }
    cumulative = cumulative.wrapping_add(blocks_chars(&req.system));
    if req.system.len() > 0 && budget > 0 && estimate_exec(cumulative, cpt) >= min_tokens {
        req.cache.system = true;
        budget = budget - 1;
    }
    cumulative = cumulative.wrapping_add(msgs_chars(&req.messages));
    if req.messages.len() > 0 && budget > 0 && estimate_exec(cumulative, cpt) >= min_tokens {
        let n = req.messages.len();
        if n > LONG_HISTORY_MESSAGES && budget >= 2 {
            req.cache.messages.push(n / 2);
            budget = budget - 1;
        }
        if budget > 0 {
            req.cache.messages.push(n - 1);
        }
    }
    assert(req.cache.messages@ =~= p.2);
    assert(req@ =~= inject_spec(r0, max_breakpoints, min_tokens, chars_per_token));
}

} // verus!
