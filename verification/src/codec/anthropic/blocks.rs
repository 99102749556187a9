//! Content blocks, messages, tools and usage between Anthropic wire JSON and
//! the IR, plus prompt-cache helpers.
use vstd::prelude::*;
use crate::ir::{
    BlockV, ContentBlock, ImageSource, ImageSourceV, Message, MessageV, ResponseFormat,
    ResponseFormatV, Role, ToolChoice, ToolChoiceV, ToolDef, ToolDefV, Usage, blocks_view,
    lemma_blocks_view, opt_view,
};
use crate::json::{
    Json, JsonV, jsize, jsize_items, lemma_view_items as lemma_items, lemma_get_smaller, lemma_jsize_pos, lemma_item_smaller, lemma_view_items,
    str_or, view_items,
};
use crate::text::owned;

verus! {

broadcast use vstd::string::group_string_axioms;

pub open spec fn opt_block_view(o: Option<ContentBlock>) -> Option<BlockV> {
    match o {
        Some(b) => Some(b@),
        None => None,
    }
}

pub open spec fn bool_or(o: Option<bool>, d: bool) -> bool {
    match o {
        Some(b) => b,
        None => d,
    }
}

/// `{"type": "object"}`, the schema of a tool that takes any object.
pub open spec fn any_object_schema() -> JsonV {
    JsonV::empty_object().set("type"@, JsonV::Str("object"@))
}

pub fn any_object_schema_exec() -> (r: Json)
    ensures
        r@ == any_object_schema(),
{
    Json::object().set("type", Json::str("object"))
}

// ---- wire → IR ---------------------------------------------------------------

pub open spec fn image_from_anthropic_spec(v: JsonV) -> Option<BlockV> {
    match v.get("source"@) {
        Some(src) => if src is Object {
            match src.get_str("type"@) {
                Some(t) => if t == "base64"@ {
                    Some(
                        BlockV::Image {
                            source: ImageSourceV::Base64 {
                                media_type: str_or(src.get_str("media_type"@), "image/png"@),
                                data: src.str_at("data"@),
                            },
                        },
                    )
                } else if t == "url"@ {
                    match src.get_str("url"@) {
                        Some(u) => Some(BlockV::Image { source: ImageSourceV::Url(u) }),
                        None => None,
                    }
                } else {
                    None
                },
                None => None,
            }
        } else {
            None
        },
        None => None,
    }
}

/// A content array or string as blocks: a string is one text block.
pub open spec fn content_from_anthropic_spec(v: JsonV) -> Seq<BlockV>
    decreases jsize(v), 2nat,
{
    match v.get("content"@) {
        Some(JsonV::Str(s)) => seq![BlockV::Text { text: s }],
        Some(JsonV::Array(a)) => {
            proof {
                lemma_get_smaller(v, "content"@);
            }
            blocks_from_anthropic_spec(a)
        },
        _ => Seq::empty(),
    }
}

pub open spec fn block_from_anthropic_spec(v: JsonV) -> Option<BlockV>
    decreases jsize(v), 3nat,
{
    if !(v is Object) {
        None
    } else {
        match v.get_str("type"@) {
            None => None,
            Some(t) => if t == "text"@ {
                match v.get_str("text"@) {
                    Some(s) => Some(BlockV::Text { text: s }),
                    None => None,
                }
            } else if t == "thinking"@ {
                Some(
                    BlockV::Thinking {
                        text: v.str_at("thinking"@),
                        signature: v.get_str("signature"@),
                    },
                )
            } else if t == "tool_use"@ {
                Some(
                    BlockV::ToolUse {
                        id: v.str_at("id"@),
                        name: v.str_at("name"@),
                        input: match v.get("input"@) {
                            Some(i) => i,
                            None => JsonV::Null,
                        },
                    },
                )
            } else if t == "tool_result"@ {
                Some(
                    BlockV::ToolResult {
                        tool_use_id: v.str_at("tool_use_id"@),
                        content: content_from_anthropic_spec(v),
                        is_error: bool_or(v.get_bool("is_error"@), false),
                    },
                )
            } else if t == "image"@ {
                image_from_anthropic_spec(v)
            } else {
                None
            },
        }
    }
}

/// The blocks that the entries of `a` spell; entries that are no block are
/// skipped.
pub open spec fn blocks_from_anthropic_spec(a: Seq<JsonV>) -> Seq<BlockV>
    decreases jsize_items(a), 4nat,
{
    if a.len() == 0 {
        Seq::empty()
    } else {
        proof {
            lemma_jsize_pos(a.last());
        }
        let rest = blocks_from_anthropic_spec(a.drop_last());
        match block_from_anthropic_spec(a.last()) {
            Some(b) => rest.push(b),
            None => rest,
        }
    }
}

fn image_from_anthropic(v: &Json) -> (r: Option<ContentBlock>)
    ensures
        opt_block_view(r) == image_from_anthropic_spec(v@),
{
    let src = match v.get("source") {
        Some(s) => s,
        None => return None,
    };
    if !src.is_object() {
        return None;
    }
    let t = match src.get_str("type") {
        Some(t) => t,
        None => return None,
    };
    if crate::text::str_eq(t.as_str(), "base64") {
        Some(
            ContentBlock::Image {
                source: ImageSource::Base64 {
                    media_type: src.str_or("media_type", "image/png"),
                    data: src.str_at("data"),
                },
            },
        )
    } else if crate::text::str_eq(t.as_str(), "url") {
        match src.get_str("url") {
            Some(u) => Some(ContentBlock::Image { source: ImageSource::Url(u.clone()) }),
            None => None,
        }
    } else {
        None
    }
}

fn content_from_anthropic(v: &Json) -> (r: Vec<ContentBlock>)
    ensures
        blocks_view(r@) == content_from_anthropic_spec(v@),
    decreases jsize(v@), 2nat,
{
    match v.get("content") {
        Some(Json::Str(s)) => {
            let r = vec![ContentBlock::Text { text: s.clone() }];
            proof {
                crate::ir::lemma_blocks_view(r@);
                assert(blocks_view(r@) =~= seq![r@[0]@]);
            }
            r
        },
        Some(Json::Array(a)) => {
            proof {
                lemma_get_smaller(v@, "content"@);
            }
            blocks_from_anthropic(a)
        },
        _ => Vec::new(),
    }
}

pub fn block_from_anthropic(v: &Json) -> (r: Option<ContentBlock>)
    ensures
        opt_block_view(r) == block_from_anthropic_spec(v@),
    decreases jsize(v@), 3nat,
{
    if !v.is_object() {
        return None;
    }
    let t = match v.get_str("type") {
        Some(t) => t.as_str(),
        None => return None,
    };
    if crate::text::str_eq(t, "text") {
        match v.get_str("text") {
            Some(s) => Some(ContentBlock::Text { text: s.clone() }),
            None => None,
        }
    } else if crate::text::str_eq(t, "thinking") {
        Some(
            ContentBlock::Thinking {
                text: v.str_at("thinking"),
                signature: v.opt_string("signature"),
            },
        )
    } else if crate::text::str_eq(t, "tool_use") {
        Some(
            ContentBlock::ToolUse {
                id: v.str_at("id"),
                name: v.str_at("name"),
                input: match v.member("input") {
                    Some(i) => i,
                    None => Json::Null,
                },
            },
        )
    } else if crate::text::str_eq(t, "tool_result") {
        Some(
            ContentBlock::ToolResult {
                tool_use_id: v.str_at("tool_use_id"),
                content: content_from_anthropic(v),
                is_error: match v.get_bool("is_error") {
                    Some(b) => b,
                    None => false,
                },
            },
        )
    } else if crate::text::str_eq(t, "image") {
        image_from_anthropic(v)
    } else {
        None
    }
}

pub fn blocks_from_anthropic(a: &Vec<Json>) -> (r: Vec<ContentBlock>)
    ensures
        blocks_view(r@) == blocks_from_anthropic_spec(view_items(a@)),
    decreases jsize_items(view_items(a@)), 4nat,
{
    let ghost items = view_items(a@);
    proof {
        lemma_view_items(a@);
    }
    let mut out: Vec<ContentBlock> = Vec::new();
    let mut i: usize = 0;
    while i < a.len()
        invariant
            i <= a.len(),
            items == view_items(a@),
            items.len() == a.len(),
            forall|k: int| 0 <= k < a.len() ==> #[trigger] items[k] == a@[k]@,
            blocks_view(out@) == blocks_from_anthropic_spec(items.take(i as int)),
        decreases a.len() - i,
    {
        assert(items.take(i + 1).drop_last() =~= items.take(i as int));
        assert(items.take(i + 1).last() == a@[i as int]@);
        proof {
            lemma_item_smaller(items, i as int);
        }
        match block_from_anthropic(&a[i]) {
            Some(b) => {
                let ghost prev = out@;
                out.push(b);
                assert(out@.drop_last() == prev);
            },
            None => {},
        }
        i = i + 1;
    }
    assert(items.take(a.len() as int) =~= items);
    out
}

/// The message a wire message spells: its role ("assistant", else user) and
/// its content; `None` when it is no object or has no string role.
pub open spec fn message_from_anthropic_spec(v: JsonV) -> Option<MessageV> {
    if !(v is Object) {
        None
    } else {
        match v.get_str("role"@) {
            None => None,
            Some(r) => Some(
                MessageV {
                    role: if r == "assistant"@ {
                        Role::Assistant
                    } else {
                        Role::User
                    },
                    content: content_from_anthropic_spec(v),
                },
            ),
        }
    }
}

pub open spec fn opt_message_view(o: Option<Message>) -> Option<MessageV> {
    match o {
        Some(m) => Some(m@),
        None => None,
    }
}

pub fn message_from_anthropic(v: &Json) -> (r: Option<Message>)
    ensures
        opt_message_view(r) == message_from_anthropic_spec(v@),
{
    if !v.is_object() {
        return None;
    }
    let role = match v.get_str("role") {
        Some(r) => if crate::text::str_eq(r.as_str(), "assistant") {
            Role::Assistant
        } else {
            Role::User
        },
        None => return None,
    };
    Some(Message { role, content: content_from_anthropic(v) })
}

/// A tool entry: a versioned `type` other than "custom" marks a server-side
/// tool kept verbatim; otherwise a function tool, which needs a name.
pub open spec fn tool_from_anthropic_spec(v: JsonV) -> Option<ToolDefV> {
    if !(v is Object) {
        None
    } else if v.get_str("type"@) is Some && v.get_str("type"@)->0 != "custom"@ {
        Some(
            ToolDefV {
                name: str_or(v.get_str("name"@), v.get_str("type"@)->0),
                description: None,
                parameters: any_object_schema(),
                builtin: Some(v),
            },
        )
    } else {
        match v.get_str("name"@) {
            None => None,
            Some(n) => Some(
                ToolDefV {
                    name: n,
                    description: v.get_str("description"@),
                    parameters: match v.get("input_schema"@) {
                        Some(s) => s,
                        None => any_object_schema(),
                    },
                    builtin: None,
                },
            ),
        }
    }
}

pub open spec fn opt_tool_view(o: Option<ToolDef>) -> Option<ToolDefV> {
    match o {
        Some(t) => Some(t@),
        None => None,
    }
}

pub fn tool_from_anthropic(v: &Json) -> (r: Option<ToolDef>)
    ensures
        opt_tool_view(r) == tool_from_anthropic_spec(v@),
{
    if !v.is_object() {
        return None;
    }
    if let Some(t) = v.get_str("type") {
        if !crate::text::str_eq(t.as_str(), "custom") {
            return Some(
                ToolDef {
                    name: match v.get_str("name") {
                        Some(n) => n.clone(),
                        None => t.clone(),
                    },
                    description: None,
                    parameters: any_object_schema_exec(),
                    builtin: Some(v.clone()),
                },
            );
        }
    }
    let name = match v.get_str("name") {
        Some(n) => n.clone(),
        None => return None,
    };
    Some(
        ToolDef {
            name,
            description: v.opt_string("description"),
            parameters: match v.member("input_schema") {
                Some(s) => s,
                None => any_object_schema_exec(),
            },
            builtin: None,
        },
    )
}

pub open spec fn response_format_from_anthropic_spec(v: JsonV) -> Option<ResponseFormatV> {
    if !(v is Object) {
        None
    } else {
        match v.get_str("type"@) {
            Some(t) => if t == "json_schema"@ {
                Some(
                    ResponseFormatV::JsonSchema {
                        name: str_or(v.get_str("name"@), "response"@),
                        schema: match v.get("schema"@) {
                            Some(s) => s,
                            None => any_object_schema(),
                        },
                        strict: true,
                    },
                )
            } else if t == "json_object"@ || t == "json"@ {
                Some(ResponseFormatV::JsonObject)
            } else {
                None
            },
            None => None,
        }
    }
}

pub open spec fn opt_format_view(o: Option<ResponseFormat>) -> Option<ResponseFormatV> {
    match o {
        Some(f) => Some(f@),
        None => None,
    }
}

pub fn response_format_from_anthropic(v: &Json) -> (r: Option<ResponseFormat>)
    ensures
        opt_format_view(r) == response_format_from_anthropic_spec(v@),
{
    if !v.is_object() {
        return None;
    }
    let t = match v.get_str("type") {
        Some(t) => t.as_str(),
        None => return None,
    };
    if crate::text::str_eq(t, "json_schema") {
        Some(
            ResponseFormat::JsonSchema {
                name: v.str_or("name", "response"),
                schema: match v.member("schema") {
                    Some(s) => s,
                    None => any_object_schema_exec(),
                },
                strict: true,
            },
        )
    } else if crate::text::str_eq(t, "json_object") || crate::text::str_eq(t, "json") {
        Some(ResponseFormat::JsonObject)
    } else {
        None
    }
}

pub open spec fn u64_at(o: JsonV, key: Seq<char>) -> u64 {
    match o.get_u64(key) {
        Some(n) => n,
        None => 0,
    }
}

/// Anthropic usage: its `input_tokens` excludes the cached and cache-written
/// portions, so they are added back to make the IR count inclusive (the sum
/// wraps as release builds' `+` does).
pub open spec fn usage_from_anthropic_spec(v: Option<JsonV>) -> Usage {
    match v {
        Some(o) => if o is Object {
            let read = u64_at(o, "cache_read_input_tokens"@);
            let creation = u64_at(o, "cache_creation_input_tokens"@);
            Usage {
                input_tokens: vstd::wrapping::u64_specs::wrapping_add(
                    vstd::wrapping::u64_specs::wrapping_add(u64_at(o, "input_tokens"@), read),
                    creation,
                ),
                output_tokens: u64_at(o, "output_tokens"@),
                cache_creation_input_tokens: creation,
                cache_read_input_tokens: read,
            }
        } else {
            Usage {
                input_tokens: 0,
                output_tokens: 0,
                cache_creation_input_tokens: 0,
                cache_read_input_tokens: 0,
            }
        },
        None => Usage {
            input_tokens: 0,
            output_tokens: 0,
            cache_creation_input_tokens: 0,
            cache_read_input_tokens: 0,
        },
    }
}

pub open spec fn opt_json(o: Option<&Json>) -> Option<JsonV> {
    match o {
        Some(j) => Some(j@),
        None => None,
    }
}

fn u64_or_zero(o: &Json, key: &str) -> (r: u64)
    ensures
        r == u64_at(o@, key@),
{
    match o.get_u64(key) {
        Some(n) => n,
        None => 0,
    }
}

pub fn usage_from_anthropic(v: Option<&Json>) -> (r: Usage)
    ensures
        r == usage_from_anthropic_spec(opt_json(v)),
{
    let o = match v {
        Some(o) => o,
        None => return Usage::zero(),
    };
    if !o.is_object() {
        return Usage::zero();
    }
    let cache_read = u64_or_zero(o, "cache_read_input_tokens");
    let cache_creation = u64_or_zero(o, "cache_creation_input_tokens");
    Usage {
        input_tokens: u64_or_zero(o, "input_tokens").wrapping_add(cache_read).wrapping_add(
            cache_creation,
        ),
        output_tokens: u64_or_zero(o, "output_tokens"),
        cache_creation_input_tokens: cache_creation,
        cache_read_input_tokens: cache_read,
    }
}

// ---- IR → wire ---------------------------------------------------------------

pub open spec fn image_source_to_anthropic_spec(s: ImageSourceV) -> JsonV {
    match s {
        ImageSourceV::Base64 { media_type, data } => JsonV::empty_object().set(
            "type"@,
            JsonV::Str("base64"@),
        ).set("media_type"@, JsonV::Str(media_type)).set("data"@, JsonV::Str(data)),
        ImageSourceV::Url(u) => JsonV::empty_object().set("type"@, JsonV::Str("url"@)).set(
            "url"@,
            JsonV::Str(u),
        ),
    }
}

pub open spec fn block_to_anthropic_spec(b: BlockV) -> JsonV
    decreases b,
{
    match b {
        BlockV::Text { text } => JsonV::empty_object().set("type"@, JsonV::Str("text"@)).set(
            "text"@,
            JsonV::Str(text),
        ),
        BlockV::Thinking { text, signature } => {
            let o = JsonV::empty_object().set("type"@, JsonV::Str("thinking"@)).set(
                "thinking"@,
                JsonV::Str(text),
            );
            match signature {
                Some(sig) => o.set("signature"@, JsonV::Str(sig)),
                None => o,
            }
        },
        BlockV::ToolUse { id, name, input } => JsonV::empty_object().set(
            "type"@,
            JsonV::Str("tool_use"@),
        ).set("id"@, JsonV::Str(id)).set("name"@, JsonV::Str(name)).set("input"@, input),
        BlockV::ToolResult { tool_use_id, content, is_error } => {
            let rendered = if content.len() == 1 && content[0] is Text {
                JsonV::Str(content[0]->Text_text)
            } else {
                JsonV::Array(blocks_to_anthropic_spec(content))
            };
            JsonV::empty_object().set("type"@, JsonV::Str("tool_result"@)).set(
                "tool_use_id"@,
                JsonV::Str(tool_use_id),
            ).set("content"@, rendered).set("is_error"@, JsonV::Bool(is_error))
        },
        BlockV::Image { source } => JsonV::empty_object().set("type"@, JsonV::Str("image"@)).set(
            "source"@,
            image_source_to_anthropic_spec(source),
        ),
    }
}

pub open spec fn blocks_to_anthropic_spec(s: Seq<BlockV>) -> Seq<JsonV>
    decreases s,
{
    if s.len() == 0 {
        Seq::empty()
    } else {
        blocks_to_anthropic_spec(s.drop_last()).push(block_to_anthropic_spec(s.last()))
    }
}

fn image_source_to_anthropic(s: &ImageSource) -> (r: Json)
    ensures
        r@ == image_source_to_anthropic_spec(s@),
{
    match s {
        ImageSource::Base64 { media_type, data } => Json::object().set("type", Json::str("base64")).set(
            "media_type",
            Json::Str(media_type.clone()),
        ).set("data", Json::Str(data.clone())),
        ImageSource::Url(u) => Json::object().set("type", Json::str("url")).set(
            "url",
            Json::Str(u.clone()),
        ),
    }
}

pub fn block_to_anthropic(block: &ContentBlock) -> (r: Json)
    ensures
        r@ == block_to_anthropic_spec(block@),
    decreases block,
{
    match block {
        ContentBlock::Text { text } => Json::object().set("type", Json::str("text")).set(
            "text",
            Json::Str(text.clone()),
        ),
        ContentBlock::Thinking { text, signature } => {
            let o = Json::object().set("type", Json::str("thinking")).set(
                "thinking",
                Json::Str(text.clone()),
            );
            match signature {
                Some(sig) => o.set("signature", Json::Str(sig.clone())),
                None => o,
            }
        },
        ContentBlock::ToolUse { id, name, input } => Json::object().set(
            "type",
            Json::str("tool_use"),
        ).set("id", Json::Str(id.clone())).set("name", Json::Str(name.clone())).set(
            "input",
            input.clone(),
        ),
        ContentBlock::ToolResult { tool_use_id, content, is_error } => {
            proof {
                lemma_blocks_view(content@);
            }
            let rendered = if content.len() == 1 && matches!(content[0], ContentBlock::Text { .. }) {
                match &content[0] {
                    ContentBlock::Text { text } => Json::Str(text.clone()),
                    _ => Json::Null,
                }
            } else {
                Json::array(blocks_to_anthropic(content))
            };
            Json::object().set("type", Json::str("tool_result")).set(
                "tool_use_id",
                Json::Str(tool_use_id.clone()),
            ).set("content", rendered).set("is_error", Json::Bool(*is_error))
        },
        ContentBlock::Image { source } => Json::object().set("type", Json::str("image")).set(
            "source",
            image_source_to_anthropic(source),
        ),
    }
}

pub fn blocks_to_anthropic(blocks: &Vec<ContentBlock>) -> (r: Vec<Json>)
    ensures
        view_items(r@) == blocks_to_anthropic_spec(blocks_view(blocks@)),
    decreases blocks@,
{
    let ghost bs = blocks_view(blocks@);
    proof {
        lemma_blocks_view(blocks@);
    }
    let mut out: Vec<Json> = Vec::new();
    let mut i: usize = 0;
    while i < blocks.len()
        invariant
            i <= blocks.len(),
            bs == blocks_view(blocks@),
            bs.len() == blocks.len(),
            forall|k: int| 0 <= k < blocks.len() ==> #[trigger] bs[k] == blocks@[k]@,
            view_items(out@) == blocks_to_anthropic_spec(bs.take(i as int)),
        decreases blocks.len() - i,
    {
        assert(bs.take(i + 1).drop_last() =~= bs.take(i as int));
        assert(bs.take(i + 1).last() == blocks@[i as int]@);
        let j = block_to_anthropic(&blocks[i]);
        let ghost prev = out@;
        out.push(j);
        assert(out@.drop_last() == prev);
        i = i + 1;
    }
    assert(bs.take(blocks.len() as int) =~= bs);
    out
}

pub open spec fn tool_to_anthropic_spec(t: ToolDefV) -> JsonV {
    let o = JsonV::empty_object().set("name"@, JsonV::Str(t.name)).set("input_schema"@, t.parameters);
    match t.description {
        Some(d) => o.set("description"@, JsonV::Str(d)),
        None => o,
    }
}

pub fn tool_to_anthropic(tool: &ToolDef) -> (r: Json)
    ensures
        r@ == tool_to_anthropic_spec(tool@),
{
    let o = Json::object().set("name", Json::Str(tool.name.clone())).set(
        "input_schema",
        tool.parameters.clone(),
    );
    match &tool.description {
        Some(d) => o.set("description", Json::Str(d.clone())),
        None => o,
    }
}

pub open spec fn tool_choice_to_anthropic_spec(tc: ToolChoiceV) -> JsonV {
    match tc {
        ToolChoiceV::Auto => JsonV::empty_object().set("type"@, JsonV::Str("auto"@)),
        ToolChoiceV::Required => JsonV::empty_object().set("type"@, JsonV::Str("any"@)),
        ToolChoiceV::NoTools => JsonV::empty_object().set("type"@, JsonV::Str("none"@)),
        ToolChoiceV::Tool(n) => JsonV::empty_object().set("type"@, JsonV::Str("tool"@)).set(
            "name"@,
            JsonV::Str(n),
        ),
    }
}

pub fn tool_choice_to_anthropic(tc: &ToolChoice) -> (r: Json)
    ensures
        r@ == tool_choice_to_anthropic_spec(tc@),
{
    match tc {
        ToolChoice::Auto => Json::object().set("type", Json::str("auto")),
        ToolChoice::Required => Json::object().set("type", Json::str("any")),
        ToolChoice::NoTools => Json::object().set("type", Json::str("none")),
        ToolChoice::Tool(n) => Json::object().set("type", Json::str("tool")).set(
            "name",
            Json::Str(n.clone()),
        ),
    }
}

// ---- prompt-cache helpers ------------------------------------------------------

/// `{"type": "ephemeral"}`, a 5-minute cache breakpoint.
pub open spec fn ephemeral() -> JsonV {
    JsonV::empty_object().set("type"@, JsonV::Str("ephemeral"@))
}

/// A rendered block with a cache breakpoint added (objects only).
pub open spec fn with_cache_control(b: JsonV) -> JsonV {
    b.set("cache_control"@, ephemeral())
}

pub fn set_cache_control(block: Json) -> (r: Json)
    ensures
        r@ == with_cache_control(block@),
{
    if block.is_object() {
        block.set("cache_control", Json::object().set("type", Json::str("ephemeral")))
    } else {
        block
    }
}

pub open spec fn has_cache_control(v: JsonV) -> bool {
    v.get("cache_control"@) is Some
}

/// Whether any element of a raw block or tool array carries `cache_control`.
pub open spec fn any_cache_control(a: Seq<JsonV>) -> bool {
    exists|i: int| 0 <= i < a.len() && has_cache_control(#[trigger] a[i])
}

pub fn array_has_cache_control(arr: &Vec<Json>) -> (r: bool)
    ensures
        r == any_cache_control(view_items(arr@)),
{
    proof {
        lemma_items(arr@);
    }
    let mut i: usize = 0;
    while i < arr.len()
        invariant
            i <= arr.len(),
            view_items(arr@).len() == arr.len(),
            forall|k: int| 0 <= k < arr.len() ==> #[trigger] view_items(arr@)[k] == arr@[k]@,
            forall|k: int| 0 <= k < i ==> !has_cache_control(#[trigger] view_items(arr@)[k]),
        decreases arr.len() - i,
    {
        if arr[i].get("cache_control").is_some() {
            assert(has_cache_control(view_items(arr@)[i as int]));
            return true;
        }
        i = i + 1;
    }
    false
}

/// Whether a raw message has a cache breakpoint, on the message or on any of
/// its content blocks.
pub open spec fn message_cache_control(m: JsonV) -> bool {
    has_cache_control(m) || match m.get_array("content"@) {
        Some(a) => any_cache_control(a),
        None => false,
    }
}

pub fn message_has_cache_control(msg: &Json) -> (r: bool)
    ensures
        r == message_cache_control(msg@),
{
    if msg.get("cache_control").is_some() {
        return true;
    }
    match msg.get_array("content") {
        Some(a) => array_has_cache_control(a),
        None => false,
    }
}

} // verus!
