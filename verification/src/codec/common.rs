//! Small helpers the codecs share.
use vstd::prelude::*;
use crate::json::{Json, JsonV, view_entries, lemma_view_entries, serde_text, to_json_text};
use crate::ir::{BlockV, ContentBlock, ImageSource, ImageSourceV, block_view};
use crate::text::{concat, owned, split_once, split_once_seq, str_eq, strip_prefix, strip_prefix_seq};

verus! {

/// Whether `k` is one of `names`.
pub open spec fn name_listed(names: Seq<Seq<char>>, k: Seq<char>) -> bool {
    exists|i: int| 0 <= i < names.len() && names[i] == k
}

pub open spec fn names_view(names: Seq<&str>) -> Seq<Seq<char>> {
    names.map_values(|s: &str| s@)
}

/// Whether `k` is one of `names`.
pub fn name_in(names: &[&str], k: &str) -> (r: bool)
    ensures
        r == name_listed(names_view(names@), k@),
{
    let mut i: usize = 0;
    while i < names.len()
        invariant
            i <= names.len(),
            forall|j: int| 0 <= j < i ==> names_view(names@)[j] != k@,
        decreases names.len() - i,
    {
        if str_eq(names[i], k) {
            assert(names_view(names@)[i as int] == k@);
            return true;
        }
        i = i + 1;
    }
    false
}

/// The members of `e` whose key is not among `known`.
pub open spec fn without_keys(e: Seq<(Seq<char>, JsonV)>, known: Seq<Seq<char>>) -> Seq<
    (Seq<char>, JsonV),
>
    decreases e.len(),
{
    if e.len() == 0 {
        Seq::empty()
    } else {
        let r = without_keys(e.drop_last(), known);
        if name_listed(known, e.last().0) {
            r
        } else {
            r.push(e.last())
        }
    }
}

/// The members of an object whose key is not among `known`, in order.
pub fn strip_known(entries: &Vec<(String, Json)>, known: &[&str]) -> (r: Vec<(String, Json)>)
    ensures
        view_entries(r@) == without_keys(view_entries(entries@), names_view(known@)),
{
    let mut out: Vec<(String, Json)> = Vec::new();
    let mut i: usize = 0;
    while i < entries.len()
        invariant
            i <= entries.len(),
            view_entries(out@) == without_keys(
                view_entries(entries@.take(i as int)),
                names_view(known@),
            ),
        decreases entries.len() - i,
    {
        proof {
            lemma_view_entries(entries@.take(i + 1));
            assert(entries@.take(i + 1).drop_last() =~= entries@.take(i as int));
        }
        let ghost x = view_entries(entries@.take(i as int));
        let ghost p = (entries@[i as int].0@, entries@[i as int].1@);
        assert(view_entries(entries@.take(i + 1)) == x.push(p));
        assert(x.push(p).drop_last() =~= x);
        if !name_in(known, entries[i].0.as_str()) {
            let ghost prev = out@;
            out.push((entries[i].0.clone(), entries[i].1.clone()));
            assert(out@.drop_last() == prev);
        }
        i = i + 1;
    }
    assert(entries@.take(entries.len() as int) =~= entries@);
    out
}

/// The texts of the `Text` blocks, concatenated.
pub open spec fn join_text_spec(blocks: Seq<BlockV>) -> Seq<char>
    decreases blocks.len(),
{
    if blocks.len() == 0 {
        Seq::empty()
    } else {
        join_text_spec(blocks.drop_last()) + match blocks.last() {
            BlockV::Text { text } => text,
            _ => Seq::empty(),
        }
    }
}

/// The texts of the `Text` blocks, concatenated.
pub fn join_text(blocks: &[ContentBlock]) -> (r: String)
    ensures
        r@ == join_text_spec(blocks@.map_values(|b: ContentBlock| b@)),
{
    let ghost bs = blocks@.map_values(|b: ContentBlock| b@);
    let mut text = String::new();
    let mut i: usize = 0;
    while i < blocks.len()
        invariant
            i <= blocks.len(),
            bs == blocks@.map_values(|b: ContentBlock| b@),
            text@ == join_text_spec(bs.take(i as int)),
        decreases blocks.len() - i,
    {
        assert(bs.take(i + 1).drop_last() =~= bs.take(i as int));
        assert(bs.take(i + 1).last() == block_view(blocks@[i as int]));
        match &blocks[i] {
            ContentBlock::Text { text: t } => {
                text.append(t.as_str());
            },
            _ => {
                assert(text@ =~= text@ + Seq::<char>::empty());
            },
        }
        i = i + 1;
    }
    assert(bs.take(blocks.len() as int) =~= bs);
    text
}

/// The member `key` of an optional parent.
pub open spec fn opt_get(parent: Option<JsonV>, key: Seq<char>) -> Option<JsonV> {
    match parent {
        Some(p) => p.get(key),
        None => None,
    }
}

/// The string member `key` of an optional parent, or the empty string.
pub open spec fn opt_str_at(parent: Option<JsonV>, key: Seq<char>) -> Seq<char> {
    match parent {
        Some(p) => p.str_at(key),
        None => Seq::empty(),
    }
}

pub fn str_in(parent: Option<&Json>, key: &str) -> (r: String)
    ensures
        r@ == opt_str_at(
            match parent {
                Some(p) => Some(p@),
                None => None,
            },
            key@,
        ),
{
    match parent {
        Some(p) => p.str_at(key),
        None => String::new(),
    }
}

/// `a`, or `b` when `a` is absent.
pub open spec fn or_else(a: Option<JsonV>, b: Option<JsonV>) -> Option<JsonV> {
    match a {
        Some(_) => a,
        None => b,
    }
}

/// The text before the first `c` in `s`, or all of `s`.
pub open spec fn before_char(s: Seq<char>, c: char) -> Seq<char> {
    match split_once_seq(s, c) {
        Some((a, _)) => a,
        None => s,
    }
}

/// A `data:` URL as an inline base64 image, any other URL as a reference.
pub open spec fn data_url_to_source_spec(url: Seq<char>) -> ImageSourceV {
    match strip_prefix_seq(url, "data:"@) {
        Some(rest) => match split_once_seq(rest, ',') {
            Some((meta, data)) => ImageSourceV::Base64 { media_type: before_char(meta, ';'), data },
            None => ImageSourceV::Url(url),
        },
        None => ImageSourceV::Url(url),
    }
}

pub fn data_url_to_source(url: &str) -> (r: ImageSource)
    ensures
        r@ == data_url_to_source_spec(url@),
{
    if let Some(rest) = strip_prefix(url, "data:") {
        if let Some((meta, data)) = split_once(rest.as_str(), ',') {
            let media_type = match split_once(meta.as_str(), ';') {
                Some((a, _)) => a,
                None => meta,
            };
            return ImageSource::Base64 { media_type, data };
        }
    }
    ImageSource::Url(owned(url))
}

/// An image as a URL: a reference as it is, inline data as a `data:` URL.
pub open spec fn source_to_data_url_spec(s: ImageSourceV) -> Seq<char> {
    match s {
        ImageSourceV::Url(u) => u,
        ImageSourceV::Base64 { media_type, data } => "data:"@ + media_type + ";base64,"@ + data,
    }
}

pub fn source_to_data_url(source: &ImageSource) -> (r: String)
    ensures
        r@ == source_to_data_url_spec(source@),
{
    match source {
        ImageSource::Url(u) => u.clone(),
        ImageSource::Base64 { media_type, data } => {
            let a = concat("data:", media_type.as_str());
            let b = concat(a.as_str(), ";base64,");
            concat(b.as_str(), data.as_str())
        },
    }
}

/// Tool-call arguments as the JSON string OpenAI expects: a string input as
/// it is, no input as `{}`, anything else as serde_json writes it.
pub open spec fn value_to_args_spec(input: JsonV) -> Seq<char> {
    match input {
        JsonV::Null => "{}"@,
        JsonV::Str(s) => s,
        _ => serde_text(input),
    }
}

pub fn value_to_args(input: &Json) -> (r: String)
    ensures
        r@ == value_to_args_spec(input@),
{
    match input {
        Json::Null => owned("{}"),
        Json::Str(s) => s.clone(),
        _ => to_json_text(input),
    }
}

} // verus!
