//! Conversion between Gemini `parts` and IR content blocks.
use vstd::prelude::*;
use vstd::utf8::encode_utf8;
use crate::codec::anthropic::blocks::opt_json;
use crate::codec::common::{join_text, join_text_spec, or_else};
use crate::codec::gemini::common::{field, field_exec};
use crate::ir::{BlockV, ContentBlock, ImageSource, ImageSourceV, blocks_view, lemma_blocks_view};
use crate::json::{Json, JsonV, parse_json, serde_parse, serde_text, str_or, to_json_text};
use crate::text::{
    chars_of, concat, decimal, ends_with, ends_with_seq, find_char, first_index, lemma_first_index,
    lower_seq, owned, string_of, to_ascii_lower, usize_decimal,
};

verus! {

broadcast use vstd::string::group_string_axioms;

/// The 64 lowercase hex digits of the BLAKE3 hash of `data`.
pub uninterp spec fn blake3_hex_of(data: Seq<u8>) -> Seq<char>;

/// A lowercase hexadecimal digit.
pub open spec fn lower_hex_digit(c: char) -> bool {
    ('0' <= c && c <= '9') || ('a' <= c && c <= 'f')
}

/// Calls `blake3::hash` and writes the hash with `Hash::to_hex`, which emits
/// two lowercase hex digits for each of the hash's 32 bytes. Which digits
/// they are is named, not stated.
#[verifier::external_body]
fn blake3_hex(data: &[u8]) -> (r: String)
    ensures
        r@ == blake3_hex_of(data@),
        r@.len() == 64,
        forall|i: int| 0 <= i < 64 ==> #[trigger] lower_hex_digit(r@[i]),
{
    blake3::hash(data).to_hex().to_string()
}

/// The text hashed for a surrogate call id: ordinal, name and arguments,
/// NUL-separated.
pub open spec fn surrogate_seed(name: Seq<char>, args: JsonV, ordinal: usize) -> Seq<char> {
    decimal(ordinal as nat) + seq!['\0'] + name + seq!['\0'] + serde_text(args)
}

/// `call_` and the first 16 hex digits of the seed's hash: Gemini often omits
/// a call id, and the ordinal keeps two identical parallel calls apart.
pub open spec fn surrogate_id_spec(name: Seq<char>, args: JsonV, ordinal: usize) -> Seq<char> {
    "call_"@ + blake3_hex_of(encode_utf8(surrogate_seed(name, args, ordinal))).take(16)
}

pub fn surrogate_id(name: &str, args: &Json, ordinal: usize) -> (r: String)
    ensures
        r@ == surrogate_id_spec(name@, args@, ordinal),
{
    let d = usize_decimal(ordinal);
    let nul = string_of(&['\0']);
    assert(nul@ =~= seq!['\0']);
    let a = concat(d.as_str(), nul.as_str());
    let b = concat(a.as_str(), name);
    let c = concat(b.as_str(), nul.as_str());
    let rendered = to_json_text(args);
    let seed = concat(c.as_str(), rendered.as_str());
    assert(seed@ =~= surrogate_seed(name@, args@, ordinal));
    let hex = blake3_hex(seed.as_str().as_bytes());
    let cs = chars_of(hex.as_str());
    let head = string_of(vstd::slice::slice_subrange(cs.as_slice(), 0, 16));
    assert(head@ =~= hex@.take(16));
    concat("call_", head.as_str())
}

pub open spec fn object_schema() -> JsonV {
    JsonV::empty_object().set("type"@, JsonV::Str("object"@))
}

// ---- parts → blocks -----------------------------------------------------------

pub open spec fn function_call_block_spec(fc: JsonV, ordinal: usize) -> BlockV {
    let name = fc.str_at("name"@);
    let args = match fc.get("args"@) {
        Some(a) => a,
        None => JsonV::empty_object(),
    };
    BlockV::ToolUse {
        id: match fc.get_str("id"@) {
            Some(id) => id,
            None => surrogate_id_spec(name, args, ordinal),
        },
        name,
        input: args,
    }
}

/// A response's text: a string as it is, anything else as serde_json writes
/// it (no response is `null`).
pub open spec fn response_text(r: Option<JsonV>) -> Seq<char> {
    match r {
        Some(JsonV::Str(s)) => s,
        Some(other) => serde_text(other),
        None => serde_text(JsonV::Null),
    }
}

pub open spec fn function_response_block_spec(fr: JsonV) -> BlockV {
    BlockV::ToolResult {
        tool_use_id: fr.str_at("name"@),
        content: seq![BlockV::Text { text: response_text(fr.get("response"@)) }],
        is_error: false,
    }
}

pub open spec fn inline_data_block_spec(inline: JsonV) -> Option<BlockV> {
    if inline is Object {
        Some(
            BlockV::Image {
                source: ImageSourceV::Base64 {
                    media_type: str_or(
                        match field(inline, "mimeType"@, "mime_type"@) {
                            Some(m) => m.as_str(),
                            None => None,
                        },
                        "image/png"@,
                    ),
                    data: inline.str_at("data"@),
                },
            },
        )
    } else {
        None
    }
}

/// A part as a block: a function call (its id, or a surrogate from
/// `ordinal`), a function response, inline or URI-referenced media, a
/// thought, or text. Anything else is no block.
pub open spec fn part_to_block_spec(part: JsonV, ordinal: usize) -> Option<BlockV> {
    if !(part is Object) {
        None
    } else {
        match or_else(part.get("functionCall"@), part.get("function_call"@)) {
            Some(fc) => Some(function_call_block_spec(fc, ordinal)),
            None => match or_else(part.get("functionResponse"@), part.get("function_response"@)) {
                Some(fr) => Some(function_response_block_spec(fr)),
                None => match or_else(part.get("inlineData"@), part.get("inline_data"@)) {
                    Some(inline) => inline_data_block_spec(inline),
                    None => {
                        let uri = match or_else(part.get("fileData"@), part.get("file_data"@)) {
                            Some(file) => match or_else(file.get("fileUri"@), file.get("file_uri"@)) {
                                Some(JsonV::Str(u)) => Some(u),
                                _ => None,
                            },
                            None => None,
                        };
                        match uri {
                            Some(u) => Some(BlockV::Image { source: ImageSourceV::Url(u) }),
                            None => if part.get_bool("thought"@) == Some(true) {
                                Some(BlockV::Thinking { text: part.str_at("text"@), signature: None })
                            } else {
                                match part.get_str("text"@) {
                                    Some(t) => Some(BlockV::Text { text: t }),
                                    None => None,
                                }
                            },
                        }
                    },
                },
            },
        }
    }
}

fn either<'a>(o: &'a Json, a: &str, b: &str) -> (r: Option<&'a Json>)
    ensures
        opt_json(r) == or_else(o@.get(a@), o@.get(b@)),
{
    match o.get(a) {
        Some(v) => Some(v),
        None => o.get(b),
    }
}

fn function_call_block(fc: &Json, ordinal: usize) -> (r: ContentBlock)
    ensures
        r@ == function_call_block_spec(fc@, ordinal),
{
    let name = fc.str_at("name");
    let args = match fc.get("args") {
        Some(a) => a.clone(),
        None => Json::object(),
    };
    let id = match fc.get_str("id") {
        Some(id) => id.clone(),
        None => surrogate_id(name.as_str(), &args, ordinal),
    };
    ContentBlock::ToolUse { id, name, input: args }
}

fn function_response_block(fr: &Json) -> (r: ContentBlock)
    ensures
        r@ == function_response_block_spec(fr@),
{
    let text = match fr.get("response") {
        Some(Json::Str(s)) => s.clone(),
        Some(other) => to_json_text(other),
        None => to_json_text(&Json::Null),
    };
    let content = vec![ContentBlock::Text { text }];
    proof {
        lemma_blocks_view(content@);
        assert(blocks_view(content@) =~= seq![content@[0]@]);
    }
    ContentBlock::ToolResult { tool_use_id: fr.str_at("name"), content, is_error: false }
}

fn inline_data_block(inline: &Json) -> (r: Option<ContentBlock>)
    ensures
        match r {
            Some(b) => inline_data_block_spec(inline@) == Some(b@),
            None => inline_data_block_spec(inline@) is None,
        },
{
    if !inline.is_object() {
        return None;
    }
    let media_type = match field_exec(inline, "mimeType", "mime_type") {
        Some(Json::Str(m)) => m.clone(),
        _ => owned("image/png"),
    };
    Some(
        ContentBlock::Image {
            source: ImageSource::Base64 { media_type, data: inline.str_at("data") },
        },
    )
}

pub fn part_to_block(part: &Json, ordinal: usize) -> (r: Option<ContentBlock>)
    ensures
        match r {
            Some(b) => part_to_block_spec(part@, ordinal) == Some(b@),
            None => part_to_block_spec(part@, ordinal) is None,
        },
{
    if !part.is_object() {
        return None;
    }
    if let Some(fc) = either(part, "functionCall", "function_call") {
        return Some(function_call_block(fc, ordinal));
    }
    if let Some(fr) = either(part, "functionResponse", "function_response") {
        return Some(function_response_block(fr));
    }
    if let Some(inline) = either(part, "inlineData", "inline_data") {
        return inline_data_block(inline);
    }
    if let Some(file) = either(part, "fileData", "file_data") {
        if let Some(Json::Str(u)) = either(file, "fileUri", "file_uri") {
            return Some(ContentBlock::Image { source: ImageSource::Url(u.clone()) });
        }
    }
    if part.get_bool("thought") == Some(true) {
        return Some(ContentBlock::Thinking { text: part.str_at("text"), signature: None });
    }
    match part.get_str("text") {
        Some(t) => Some(ContentBlock::Text { text: t.clone() }),
        None => None,
    }
}

// ---- blocks → parts -----------------------------------------------------------

/// The path of a URL: what comes before its first `?` or `#`.
pub open spec fn url_path(url: Seq<char>) -> Seq<char> {
    let q = first_index(url, '?');
    let h = first_index(url, '#');
    let cut = if q < 0 && h < 0 {
        url.len() as int
    } else if q < 0 {
        h
    } else if h < 0 {
        q
    } else if q < h {
        q
    } else {
        h
    };
    url.take(cut)
}

/// An image MIME type guessed from a URL's extension, JPEG by default.
pub open spec fn guess_image_mime_spec(url: Seq<char>) -> Seq<char> {
    let path = lower_seq(url_path(url));
    if ends_with_seq(path, ".png"@) {
        "image/png"@
    } else if ends_with_seq(path, ".webp"@) {
        "image/webp"@
    } else if ends_with_seq(path, ".gif"@) {
        "image/gif"@
    } else if ends_with_seq(path, ".heic"@) {
        "image/heic"@
    } else {
        "image/jpeg"@
    }
}

pub fn guess_image_mime(url: &str) -> (r: &'static str)
    ensures
        r@ == guess_image_mime_spec(url@),
{
    proof {
        lemma_first_index(url@, '?');
        lemma_first_index(url@, '#');
    }
    let n = url.unicode_len();
    let cut = match (find_char(url, '?'), find_char(url, '#')) {
        (None, None) => n,
        (None, Some(h)) => h,
        (Some(q), None) => q,
        (Some(q), Some(h)) => if q < h {
            q
        } else {
            h
        },
    };
    let cs = chars_of(url);
    let path = string_of(vstd::slice::slice_subrange(cs.as_slice(), 0, cut));
    assert(path@ =~= url_path(url@));
    let path = to_ascii_lower(path.as_str());
    if ends_with(path.as_str(), ".png") {
        "image/png"
    } else if ends_with(path.as_str(), ".webp") {
        "image/webp"
    } else if ends_with(path.as_str(), ".gif") {
        "image/gif"
    } else if ends_with(path.as_str(), ".heic") {
        "image/heic"
    } else {
        "image/jpeg"
    }
}

/// Tool-call arguments as the object Gemini wants: an object as it is, a
/// string parsed as JSON where serde_json accepts it, else an empty object.
pub open spec fn normalize_args_spec(input: JsonV) -> JsonV {
    match input {
        JsonV::Object(_) => input,
        JsonV::Str(s) => match serde_parse(s) {
            Ok(doc) => doc,
            Err(_) => JsonV::empty_object(),
        },
        _ => JsonV::empty_object(),
    }
}

pub fn normalize_args(input: &Json) -> (r: Json)
    ensures
        r@ == normalize_args_spec(input@),
{
    match input {
        Json::Object(_) => input.clone(),
        Json::Str(s) => match parse_json(s.as_str()) {
            Ok(doc) => doc,
            Err(_) => Json::object(),
        },
        _ => Json::object(),
    }
}

pub open spec fn obj1(k: Seq<char>, v: JsonV) -> JsonV {
    JsonV::empty_object().set(k, v)
}

/// A block as a part; tool results have no part of their own.
pub open spec fn block_to_part_spec(b: BlockV) -> Option<JsonV> {
    match b {
        BlockV::Text { text } => Some(obj1("text"@, JsonV::Str(text))),
        BlockV::Thinking { text, signature: _ } => Some(
            obj1("text"@, JsonV::Str(text)).set("thought"@, JsonV::Bool(true)),
        ),
        BlockV::ToolUse { id: _, name, input } => Some(
            obj1(
                "functionCall"@,
                obj1("name"@, JsonV::Str(name)).set("args"@, normalize_args_spec(input)),
            ),
        ),
        BlockV::Image { source } => match source {
            ImageSourceV::Base64 { media_type, data } => Some(
                obj1(
                    "inlineData"@,
                    obj1("mimeType"@, JsonV::Str(media_type)).set("data"@, JsonV::Str(data)),
                ),
            ),
            ImageSourceV::Url(url) => Some(
                obj1(
                    "fileData"@,
                    obj1("mimeType"@, JsonV::Str(guess_image_mime_spec(url))).set(
                        "fileUri"@,
                        JsonV::Str(url),
                    ),
                ),
            ),
        },
        BlockV::ToolResult { .. } => None,
    }
}

fn obj1_exec(k: &str, v: Json) -> (r: Json)
    ensures
        r@ == obj1(k@, v@),
        r@ is Object,
{
    Json::object().set(k, v)
}

pub fn block_to_part(block: &ContentBlock) -> (r: Option<Json>)
    ensures
        match r {
            Some(p) => block_to_part_spec(block@) == Some(p@),
            None => block_to_part_spec(block@) is None,
        },
{
    match block {
        ContentBlock::Text { text } => Some(obj1_exec("text", Json::Str(text.clone()))),
        ContentBlock::Thinking { text, signature: _ } => Some(
            obj1_exec("text", Json::Str(text.clone())).set("thought", Json::Bool(true)),
        ),
        ContentBlock::ToolUse { id: _, name, input } => Some(
            obj1_exec(
                "functionCall",
                obj1_exec("name", Json::Str(name.clone())).set("args", normalize_args(input)),
            ),
        ),
        ContentBlock::Image { source } => match source {
            ImageSource::Base64 { media_type, data } => Some(
                obj1_exec(
                    "inlineData",
                    obj1_exec("mimeType", Json::Str(media_type.clone())).set(
                        "data",
                        Json::Str(data.clone()),
                    ),
                ),
            ),
            ImageSource::Url(url) => Some(
                obj1_exec(
                    "fileData",
                    obj1_exec("mimeType", Json::str(guess_image_mime(url.as_str()))).set(
                        "fileUri",
                        Json::Str(url.clone()),
                    ),
                ),
            ),
        },
        ContentBlock::ToolResult { .. } => None,
    }
}

/// A tool result's content as the `response` object Gemini wants: its text
/// when that parses as a JSON object, else `{"result": text}`.
pub open spec fn response_object_spec(content: Seq<BlockV>) -> JsonV {
    let text = join_text_spec(content);
    match serde_parse(text) {
        Ok(JsonV::Object(e)) => JsonV::Object(e),
        _ => obj1("result"@, JsonV::Str(text)),
    }
}

pub fn response_object(content: &Vec<ContentBlock>) -> (r: Json)
    ensures
        r@ == response_object_spec(blocks_view(content@)),
{
    proof {
        lemma_blocks_view(content@);
        assert(content@.map_values(|b: ContentBlock| b@) =~= blocks_view(content@));
    }
    let text = join_text(content.as_slice());
    match parse_json(text.as_str()) {
        Ok(Json::Object(e)) => Json::Object(e),
        _ => obj1_exec("result", Json::Str(text)),
    }
}

} // verus!
