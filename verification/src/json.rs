//! The JSON document model the codecs read and build, with accessors proved
//! against a mathematical view of the document.
use vstd::prelude::*;
use crate::text::{owned, str_eq};

verus! {

/// A JSON document. Integers keep their value; any other number keeps the
/// decimal text it was written with. An object keeps its members in order;
/// when a key occurs twice the later member is the one that counts.
pub enum Json {
    Null,
    Bool(bool),
    UInt(u64),
    NegInt(i64),
    Float(String),
    Str(String),
    Array(Vec<Json>),
    Object(Vec<(String, Json)>),
}

/// The mathematical view of a [`Json`] document.
pub enum JsonV {
    Null,
    Bool(bool),
    UInt(u64),
    NegInt(i64),
    Float(Seq<char>),
    Str(Seq<char>),
    Array(Seq<JsonV>),
    Object(Seq<(Seq<char>, JsonV)>),
}

pub open spec fn view_items(v: Seq<Json>) -> Seq<JsonV>
    decreases v,
{
    if v.len() == 0 {
        Seq::empty()
    } else {
        view_items(v.drop_last()).push(json_view(v.last()))
    }
}

pub open spec fn view_entries(v: Seq<(String, Json)>) -> Seq<(Seq<char>, JsonV)>
    decreases v,
{
    if v.len() == 0 {
        Seq::empty()
    } else {
        view_entries(v.drop_last()).push((v.last().0@, json_view(v.last().1)))
    }
}

pub open spec fn json_view(j: Json) -> JsonV
    decreases j,
{
    match j {
        Json::Null => JsonV::Null,
        Json::Bool(b) => JsonV::Bool(b),
        Json::UInt(n) => JsonV::UInt(n),
        Json::NegInt(n) => JsonV::NegInt(n),
        Json::Float(s) => JsonV::Float(s@),
        Json::Str(s) => JsonV::Str(s@),
        Json::Array(v) => JsonV::Array(view_items(v@)),
        Json::Object(v) => JsonV::Object(view_entries(v@)),
    }
}

impl View for Json {
    type V = JsonV;

    open spec fn view(&self) -> JsonV {
        json_view(*self)
    }
}

pub proof fn lemma_view_items(v: Seq<Json>)
    ensures
        view_items(v).len() == v.len(),
        forall|i: int| 0 <= i < v.len() ==> #[trigger] view_items(v)[i] == json_view(v[i]),
    decreases v.len(),
{
    if v.len() > 0 {
        lemma_view_items(v.drop_last());
    }
}

/// Viewing a concatenation is concatenating the views.
pub proof fn lemma_view_items_add(a: Seq<Json>, b: Seq<Json>)
    ensures
        view_items(a + b) == view_items(a) + view_items(b),
{
    lemma_view_items(a);
    lemma_view_items(b);
    lemma_view_items(a + b);
    assert(view_items(a + b) =~= view_items(a) + view_items(b));
}

pub proof fn lemma_view_entries(v: Seq<(String, Json)>)
    ensures
        view_entries(v).len() == v.len(),
        forall|i: int|
            0 <= i < v.len() ==> #[trigger] view_entries(v)[i] == (v[i].0@, json_view(v[i].1)),
    decreases v.len(),
{
    if v.len() > 0 {
        lemma_view_entries(v.drop_last());
    }
}

/// Index of the last member named `key`, or -1.
pub open spec fn key_index(e: Seq<(Seq<char>, JsonV)>, key: Seq<char>) -> int
    decreases e.len(),
{
    if e.len() == 0 {
        -1
    } else if e.last().0 == key {
        e.len() - 1
    } else {
        key_index(e.drop_last(), key)
    }
}

pub proof fn lemma_key_index(e: Seq<(Seq<char>, JsonV)>, key: Seq<char>)
    ensures
        -1 <= key_index(e, key) < e.len(),
        key_index(e, key) >= 0 ==> e[key_index(e, key)].0 == key,
        forall|j: int| key_index(e, key) < j < e.len() ==> #[trigger] e[j].0 != key,
    decreases e.len(),
{
    if e.len() > 0 {
        lemma_key_index(e.drop_last(), key);
        if e.last().0 != key {
            assert forall|j: int| key_index(e, key) < j < e.len() implies #[trigger] e[j].0
                != key by {
                if j < e.len() - 1 {
                    assert(e.drop_last()[j] == e[j]);
                }
            }
        }
    }
}

/// The last member named `key` is the one at `i` exactly when `i` holds that
/// key and no later member does.
pub proof fn lemma_key_index_at(e: Seq<(Seq<char>, JsonV)>, key: Seq<char>, i: int)
    requires
        0 <= i < e.len(),
        e[i].0 == key,
        forall|j: int| i < j < e.len() ==> #[trigger] e[j].0 != key,
    ensures
        key_index(e, key) == i,
{
    lemma_key_index(e, key);
    let k = key_index(e, key);
    if k < i {
        assert(e[i].0 != key);
    } else if k > i {
        assert(e[k].0 != key);
    }
}

/// The value of the member named `key` (the last one, if several).
pub open spec fn entry_lookup(e: Seq<(Seq<char>, JsonV)>, key: Seq<char>) -> Option<JsonV> {
    let i = key_index(e, key);
    if i >= 0 {
        Some(e[i].1)
    } else {
        None
    }
}

/// The members `e` with `key` bound to `value`: an existing member is
/// overwritten in place, a new one goes last.
pub open spec fn entry_set(e: Seq<(Seq<char>, JsonV)>, key: Seq<char>, value: JsonV) -> Seq<
    (Seq<char>, JsonV),
> {
    let i = key_index(e, key);
    if i >= 0 {
        e.update(i, (key, value))
    } else {
        e.push((key, value))
    }
}

impl JsonV {
    pub open spec fn get(self, key: Seq<char>) -> Option<JsonV> {
        match self {
            JsonV::Object(e) => entry_lookup(e, key),
            _ => None,
        }
    }

    pub open spec fn as_str(self) -> Option<Seq<char>> {
        match self {
            JsonV::Str(s) => Some(s),
            _ => None,
        }
    }

    pub open spec fn as_u64(self) -> Option<u64> {
        match self {
            JsonV::UInt(n) => Some(n),
            _ => None,
        }
    }

    pub open spec fn as_bool(self) -> Option<bool> {
        match self {
            JsonV::Bool(b) => Some(b),
            _ => None,
        }
    }

    pub open spec fn as_array(self) -> Option<Seq<JsonV>> {
        match self {
            JsonV::Array(a) => Some(a),
            _ => None,
        }
    }

    pub open spec fn is_number(self) -> bool {
        self is UInt || self is NegInt || self is Float
    }

    /// `self.get(key)` read as a string.
    pub open spec fn get_str(self, key: Seq<char>) -> Option<Seq<char>> {
        match self.get(key) {
            Some(v) => v.as_str(),
            None => None,
        }
    }

    pub open spec fn get_u64(self, key: Seq<char>) -> Option<u64> {
        match self.get(key) {
            Some(v) => v.as_u64(),
            None => None,
        }
    }

    pub open spec fn get_bool(self, key: Seq<char>) -> Option<bool> {
        match self.get(key) {
            Some(v) => v.as_bool(),
            None => None,
        }
    }

    pub open spec fn get_array(self, key: Seq<char>) -> Option<Seq<JsonV>> {
        match self.get(key) {
            Some(v) => v.as_array(),
            None => None,
        }
    }

    /// The object with `key` bound to `value`; anything else is left as it is.
    pub open spec fn set(self, key: Seq<char>, value: JsonV) -> JsonV {
        match self {
            JsonV::Object(e) => JsonV::Object(entry_set(e, key, value)),
            _ => self,
        }
    }

    pub open spec fn empty_object() -> JsonV {
        JsonV::Object(Seq::empty())
    }
}

/// A member read after an object member is written: the value written under
/// that key, what was there before under any other.
pub broadcast proof fn lemma_get_after_set(o: JsonV, key: Seq<char>, value: JsonV, q: Seq<char>)
    requires
        o is Object,
    ensures
        #[trigger] o.set(key, value).get(q) == if q == key {
            Some(value)
        } else {
            o.get(q)
        },
{
    lemma_set_get(o, key, value, q);
}

/// Reading back a member just written gives the value written; other members
/// are untouched.
pub proof fn lemma_set_get(o: JsonV, key: Seq<char>, value: JsonV, other: Seq<char>)
    requires
        o is Object,
    ensures
        o.set(key, value).get(key) == Some(value),
        other != key ==> o.set(key, value).get(other) == o.get(other),
{
    let e = o->Object_0;
    lemma_key_index(e, key);
    lemma_key_index(e, other);
    let s = entry_set(e, key, value);
    lemma_key_index(s, other);
    if key_index(e, key) < 0 {
        lemma_key_index_at(s, key, e.len() as int);
        if other != key {
            let k = key_index(e, other);
            if k >= 0 {
                lemma_key_index_at(s, other, k);
            } else {
                if key_index(s, other) >= 0 {
                    assert(s[key_index(s, other)] == e[key_index(s, other)]);
                }
            }
        }
    } else {
        let i = key_index(e, key);
        assert forall|j: int| i < j < s.len() implies #[trigger] s[j].0 != key by {
            assert(s[j] == e[j]);
        }
        lemma_key_index_at(s, key, i);
        if other != key {
            let k = key_index(e, other);
            if k >= 0 {
                assert forall|j: int| k < j < s.len() implies #[trigger] s[j].0 != other by {
                    if j != i {
                        assert(s[j] == e[j]);
                    }
                }
                lemma_key_index_at(s, other, k);
            } else {
                if key_index(s, other) >= 0 {
                    assert(s[key_index(s, other)] == e[key_index(s, other)]);
                }
            }
        }
    }
}

/// Index of the last member named `key` among `entries`, if any.
fn find_key(entries: &Vec<(String, Json)>, key: &str) -> (r: Option<usize>)
    ensures
        match r {
            Some(i) => i < entries.len() && key_index(view_entries(entries@), key@) == i,
            None => key_index(view_entries(entries@), key@) == -1,
        },
{
    proof {
        lemma_view_entries(entries@);
        lemma_key_index(view_entries(entries@), key@);
    }
    let ghost e = view_entries(entries@);
    let mut j: usize = entries.len();
    while j > 0
        invariant
            j <= entries.len(),
            e == view_entries(entries@),
            e.len() == entries.len(),
            forall|k: int| j <= k < e.len() ==> #[trigger] e[k].0 != key@,
        decreases j,
    {
        proof {
            lemma_view_entries(entries@);
        }
        if str_eq(entries[j - 1].0.as_str(), key) {
            proof {
                assert(e[j - 1] == (entries@[j - 1].0@, json_view(entries@[j - 1].1)));
                lemma_key_index_at(e, key@, j - 1);
            }
            return Some(j - 1);
        }
        proof {
            assert(e[j - 1] == (entries@[j - 1].0@, json_view(entries@[j - 1].1)));
        }
        j = j - 1;
    }
    proof {
        if key_index(e, key@) >= 0 {
            assert(e[key_index(e, key@)].0 == key@);
        }
    }
    None
}

/// The member named `key` among `entries` (the last one, if several).
pub fn entries_get<'a>(entries: &'a Vec<(String, Json)>, key: &str) -> (r: Option<&'a Json>)
    ensures
        match r {
            Some(v) => entry_lookup(view_entries(entries@), key@) == Some(v@),
            None => entry_lookup(view_entries(entries@), key@) is None,
        },
{
    proof {
        lemma_view_entries(entries@);
    }
    match find_key(entries, key) {
        Some(i) => Some(&entries[i].1),
        None => None,
    }
}

/// The members with `key` bound to `value`, as an object insert leaves them.
pub fn entries_set(entries: Vec<(String, Json)>, key: &str, value: Json) -> (r: Vec<(String, Json)>)
    ensures
        view_entries(r@) == entry_set(view_entries(entries@), key@, value@),
{
    match Json::Object(entries).set(key, value) {
        Json::Object(e) => e,
        _ => {
            proof {
                assert(false);
            }
            Vec::new()
        },
    }
}

/// The members not named `key`, in order.
pub open spec fn entry_remove(e: Seq<(Seq<char>, JsonV)>, key: Seq<char>) -> Seq<(Seq<char>, JsonV)>
    decreases e.len(),
{
    if e.len() == 0 {
        Seq::empty()
    } else {
        let r = entry_remove(e.drop_last(), key);
        if e.last().0 == key {
            r
        } else {
            r.push(e.last())
        }
    }
}

/// The members with every one named `key` taken out, as an object remove
/// leaves them.
pub fn entries_remove(entries: &Vec<(String, Json)>, key: &str) -> (r: Vec<(String, Json)>)
    ensures
        view_entries(r@) == entry_remove(view_entries(entries@), key@),
{
    let mut out: Vec<(String, Json)> = Vec::new();
    let mut i: usize = 0;
    proof {
        lemma_view_entries(entries@);
    }
    while i < entries.len()
        invariant
            i <= entries.len(),
            view_entries(out@) == entry_remove(view_entries(entries@.take(i as int)), key@),
        decreases entries.len() - i,
    {
        assert(entries@.take(i + 1).drop_last() =~= entries@.take(i as int));
        assert(entries@.take(i + 1).last() == entries@[i as int]);
        assert(view_entries(entries@.take(i + 1)) == view_entries(entries@.take(i as int)).push(
            (entries@[i as int].0@, json_view(entries@[i as int].1)),
        ));
        let ghost next = view_entries(entries@.take(i + 1));
        assert(next.drop_last() =~= view_entries(entries@.take(i as int)));
        if !str_eq(entries[i].0.as_str(), key) {
            let k = entries[i].0.clone();
            let c = entries[i].1.clone();
            let ghost prev = out@;
            out.push((k, c));
            assert(out@.drop_last() == prev);
        }
        i = i + 1;
    }
    assert(entries@.take(entries.len() as int) =~= entries@);
    out
}

impl Json {
    /// The member named `key` of an object; `None` for a missing member or a
    /// value that is not an object.
    pub fn get(&self, key: &str) -> (r: Option<&Json>)
        ensures
            match r {
                Some(v) => self@.get(key@) == Some(v@),
                None => self@.get(key@) is None,
            },
    {
        match self {
            Json::Object(entries) => {
                proof {
                    lemma_view_entries(entries@);
                }
                match find_key(entries, key) {
                    Some(i) => Some(&entries[i].1),
                    None => None,
                }
            },
            _ => None,
        }
    }

    pub fn as_str(&self) -> (r: Option<&String>)
        ensures
            match r {
                Some(s) => self@.as_str() == Some(s@),
                None => self@.as_str() is None,
            },
    {
        match self {
            Json::Str(s) => Some(s),
            _ => None,
        }
    }

    pub fn as_u64(&self) -> (r: Option<u64>)
        ensures
            r == self@.as_u64(),
    {
        match self {
            Json::UInt(n) => Some(*n),
            _ => None,
        }
    }

    pub fn as_bool(&self) -> (r: Option<bool>)
        ensures
            r == self@.as_bool(),
    {
        match self {
            Json::Bool(b) => Some(*b),
            _ => None,
        }
    }

    pub fn as_array(&self) -> (r: Option<&Vec<Json>>)
        ensures
            match r {
                Some(a) => self@.as_array() == Some(view_items(a@)),
                None => self@.as_array() is None,
            },
    {
        match self {
            Json::Array(a) => Some(a),
            _ => None,
        }
    }

    pub fn is_object(&self) -> (r: bool)
        ensures
            r == (self@ is Object),
    {
        match self {
            Json::Object(_) => true,
            _ => false,
        }
    }

    pub fn is_null(&self) -> (r: bool)
        ensures
            r == (self@ is Null),
    {
        match self {
            Json::Null => true,
            _ => false,
        }
    }

    pub fn is_number(&self) -> (r: bool)
        ensures
            r == self@.is_number(),
    {
        match self {
            Json::UInt(_) | Json::NegInt(_) | Json::Float(_) => true,
            _ => false,
        }
    }

    /// The string member named `key`.
    pub fn get_str(&self, key: &str) -> (r: Option<&String>)
        ensures
            match r {
                Some(s) => self@.get_str(key@) == Some(s@),
                None => self@.get_str(key@) is None,
            },
    {
        match self.get(key) {
            Some(v) => v.as_str(),
            None => None,
        }
    }

    pub fn get_u64(&self, key: &str) -> (r: Option<u64>)
        ensures
            r == self@.get_u64(key@),
    {
        match self.get(key) {
            Some(v) => v.as_u64(),
            None => None,
        }
    }

    pub fn get_bool(&self, key: &str) -> (r: Option<bool>)
        ensures
            r == self@.get_bool(key@),
    {
        match self.get(key) {
            Some(v) => v.as_bool(),
            None => None,
        }
    }

    pub fn get_array(&self, key: &str) -> (r: Option<&Vec<Json>>)
        ensures
            match r {
                Some(a) => self@.get_array(key@) == Some(view_items(a@)),
                None => self@.get_array(key@) is None,
            },
    {
        match self.get(key) {
            Some(v) => v.as_array(),
            None => None,
        }
    }

    /// An empty object.
    pub fn object() -> (r: Json)
        ensures
            r@ == JsonV::empty_object(),
    {
        Json::Object(Vec::new())
    }

    /// A string value holding the characters of `s`.
    pub fn str(s: &str) -> (r: Json)
        ensures
            r@ == JsonV::Str(s@),
    {
        Json::Str(owned(s))
    }

    /// An array of the given values.
    pub fn array(items: Vec<Json>) -> (r: Json)
        ensures
            r@ == JsonV::Array(view_items(items@)),
    {
        Json::Array(items)
    }

    /// The object with `key` bound to `value`.
    pub fn set(self, key: &str, value: Json) -> (r: Json)
        requires
            self@ is Object,
        ensures
            r@ == self@.set(key@, value@),
    {
        match self {
            Json::Object(mut entries) => {
                proof {
                    lemma_view_entries(entries@);
                }
                let ghost before = entries@;
                let ghost vkey = key@;
                let ghost vvalue = value@;
                match find_key(&entries, key) {
                    Some(i) => {
                        entries.set(i, (owned(key), value));
                        proof {
                            lemma_view_entries(entries@);
                            assert(view_entries(entries@) =~= view_entries(before).update(
                                i as int,
                                (vkey, vvalue),
                            ));
                        }
                    },
                    None => {
                        entries.push((owned(key), value));
                        proof {
                            assert(entries@.drop_last() == before);
                        }
                    },
                }
                Json::Object(entries)
            },
            other => other,
        }
    }
}


// ---- size, for recursion over nested documents -----------------------------

pub open spec fn jsize(v: JsonV) -> nat
    decreases v,
{
    match v {
        JsonV::Array(a) => 1 + jsize_items(a),
        JsonV::Object(e) => 1 + jsize_entries(e),
        _ => 1,
    }
}

pub open spec fn jsize_items(a: Seq<JsonV>) -> nat
    decreases a,
{
    if a.len() == 0 {
        0
    } else {
        jsize_items(a.drop_last()) + jsize(a.last())
    }
}

pub open spec fn jsize_entries(e: Seq<(Seq<char>, JsonV)>) -> nat
    decreases e,
{
    if e.len() == 0 {
        0
    } else {
        jsize_entries(e.drop_last()) + jsize(e.last().1)
    }
}

pub proof fn lemma_jsize_pos(v: JsonV)
    ensures
        jsize(v) >= 1,
{
}

pub proof fn lemma_item_smaller(a: Seq<JsonV>, i: int)
    requires
        0 <= i < a.len(),
    ensures
        jsize(a[i]) <= jsize_items(a),
        jsize(a[i]) < jsize(JsonV::Array(a)),
    decreases a.len(),
{
    if i < a.len() - 1 {
        lemma_item_smaller(a.drop_last(), i);
    }
}

pub proof fn lemma_entry_smaller(e: Seq<(Seq<char>, JsonV)>, i: int)
    requires
        0 <= i < e.len(),
    ensures
        jsize(e[i].1) <= jsize_entries(e),
    decreases e.len(),
{
    if i < e.len() - 1 {
        lemma_entry_smaller(e.drop_last(), i);
    }
}

/// A member of an object is smaller than the object.
pub proof fn lemma_get_smaller(v: JsonV, key: Seq<char>)
    ensures
        v.get(key) matches Some(w) ==> jsize(w) < jsize(v),
{
    if let JsonV::Object(e) = v {
        lemma_key_index(e, key);
        if key_index(e, key) >= 0 {
            lemma_entry_smaller(e, key_index(e, key));
        }
    }
}

// ---- reading helpers --------------------------------------------------------

pub open spec fn str_or(o: Option<Seq<char>>, d: Seq<char>) -> Seq<char> {
    match o {
        Some(s) => s,
        None => d,
    }
}

impl JsonV {
    /// `self.get(key)` read as a string, the empty string when absent.
    pub open spec fn str_at(self, key: Seq<char>) -> Seq<char> {
        str_or(self.get_str(key), Seq::empty())
    }

    /// The number itself, `None` for anything else.
    pub open spec fn as_number(self) -> Option<JsonV> {
        if self.is_number() {
            Some(self)
        } else {
            None
        }
    }
}

impl Json {
    /// The string member named `key`, or the empty string.
    pub fn str_at(&self, key: &str) -> (r: String)
        ensures
            r@ == self@.str_at(key@),
    {
        match self.get_str(key) {
            Some(s) => s.clone(),
            None => String::new(),
        }
    }

    /// The string member named `key`, or `default`.
    pub fn str_or(&self, key: &str, default: &str) -> (r: String)
        ensures
            r@ == str_or(self@.get_str(key@), default@),
    {
        match self.get_str(key) {
            Some(s) => s.clone(),
            None => owned(default),
        }
    }

    /// The string member named `key`, copied.
    pub fn opt_string(&self, key: &str) -> (r: Option<String>)
        ensures
            match r {
                Some(s) => self@.get_str(key@) == Some(s@),
                None => self@.get_str(key@) is None,
            },
    {
        match self.get_str(key) {
            Some(s) => Some(s.clone()),
            None => None,
        }
    }

    /// A copy of the member named `key`.
    pub fn member(&self, key: &str) -> (r: Option<Json>)
        ensures
            match r {
                Some(j) => self@.get(key@) == Some(j@),
                None => self@.get(key@) is None,
            },
    {
        match self.get(key) {
            Some(v) => Some(v.clone()),
            None => None,
        }
    }

    /// A copy of a number member, `None` for anything else.
    pub fn number_at(&self, key: &str) -> (r: Option<Json>)
        ensures
            match r {
                Some(j) => self@.get(key@) == Some(j@) && j@.is_number(),
                None => !(self@.get(key@) matches Some(v) && v.is_number()),
            },
    {
        match self.get(key) {
            Some(v) => if v.is_number() {
                Some(v.clone())
            } else {
                None
            },
            None => None,
        }
    }

    pub fn uint(n: u64) -> (r: Json)
        ensures
            r@ == JsonV::UInt(n),
    {
        Json::UInt(n)
    }
}

fn clone_items(v: &Vec<Json>) -> (r: Vec<Json>)
    ensures
        view_items(r@) == view_items(v@),
    decreases v@, 0nat,
{
    let mut out: Vec<Json> = Vec::new();
    let mut i: usize = 0;
    while i < v.len()
        invariant
            i <= v.len(),
            view_items(out@) == view_items(v@.take(i as int)),
        decreases v.len() - i,
    {
        assert(v@.take(i + 1).drop_last() =~= v@.take(i as int));
        let c = v[i].clone();
        let ghost prev = out@;
        out.push(c);
        assert(out@.drop_last() == prev);
        i = i + 1;
    }
    assert(v@.take(v.len() as int) =~= v@);
    out
}

pub fn clone_entries(v: &Vec<(String, Json)>) -> (r: Vec<(String, Json)>)
    ensures
        view_entries(r@) == view_entries(v@),
    decreases v@, 0nat,
{
    let mut out: Vec<(String, Json)> = Vec::new();
    let mut i: usize = 0;
    while i < v.len()
        invariant
            i <= v.len(),
            view_entries(out@) == view_entries(v@.take(i as int)),
        decreases v.len() - i,
    {
        assert(v@.take(i + 1).drop_last() =~= v@.take(i as int));
        let k = v[i].0.clone();
        proof {
            assert(decreases_to!(v@ => v@[i as int]));
            assert(decreases_to!(v@[i as int] => v@[i as int].1));
        }
        let c = v[i].1.clone();
        let ghost prev = out@;
        out.push((k, c));
        assert(out@.drop_last() == prev);
        i = i + 1;
    }
    assert(v@.take(v.len() as int) =~= v@);
    out
}

impl Clone for Json {
    fn clone(&self) -> (r: Json)
        ensures
            r@ == self@,
        decreases self, 1nat,
    {
        match self {
            Json::Null => Json::Null,
            Json::Bool(b) => Json::Bool(*b),
            Json::UInt(n) => Json::UInt(*n),
            Json::NegInt(n) => Json::NegInt(*n),
            Json::Float(s) => Json::Float(s.clone()),
            Json::Str(s) => Json::Str(s.clone()),
            Json::Array(v) => Json::Array(clone_items(v)),
            Json::Object(v) => Json::Object(clone_entries(v)),
        }
    }
}


/// serde_json's document type, carried through the two conversions below.
#[verifier::external_type_specification]
#[verifier::external_body]
pub struct ExSerdeValue(serde_json::Value);

/// What `serde_json::from_str::<serde_json::Value>` makes of `text`: the
/// document, taken node for node into [`JsonV`], or the message of the error
/// it reports.
pub uninterp spec fn serde_parse(text: Seq<char>) -> Result<JsonV, Seq<char>>;

/// The text that `serde_json::Value::to_string` writes for a document,
/// taken node for node from [`JsonV`].
pub uninterp spec fn serde_text(doc: JsonV) -> Seq<char>;

/// Moves a serde_json document into a [`Json`] of the same shape.
#[verifier::external_body]
fn from_serde(v: serde_json::Value) -> Json {
    match v {
        serde_json::Value::Null => Json::Null,
        serde_json::Value::Bool(b) => Json::Bool(b),
        serde_json::Value::Number(n) => match (n.as_u64(), n.as_i64()) {
            (Some(u), _) => Json::UInt(u),
            (None, Some(i)) => Json::NegInt(i),
            (None, None) => Json::Float(n.to_string()),
        },
        serde_json::Value::String(s) => Json::Str(s),
        serde_json::Value::Array(a) => Json::Array(a.into_iter().map(from_serde).collect()),
        serde_json::Value::Object(o) => Json::Object(o.into_iter().map(|(k, v)| (k, from_serde(v))).collect()),
    }
}

/// Copies a [`Json`] into a serde_json document of the same shape.
#[verifier::external_body]
fn to_serde(j: &Json) -> serde_json::Value {
    match j {
        Json::Null => serde_json::Value::Null,
        Json::Bool(b) => serde_json::Value::Bool(*b),
        Json::UInt(u) => serde_json::Value::from(*u),
        Json::NegInt(i) => serde_json::Value::from(*i),
        Json::Float(t) => t.parse::<serde_json::Number>().map(serde_json::Value::Number).unwrap_or(serde_json::Value::Null),
        Json::Str(s) => serde_json::Value::String(s.clone()),
        Json::Array(a) => serde_json::Value::Array(a.iter().map(to_serde).collect()),
        Json::Object(o) => serde_json::Value::Object(o.iter().map(|(k, v)| (k.clone(), to_serde(v))).collect()),
    }
}

/// Calls `serde_json::from_str` on `text`; the contract names its result, the
/// document or the error's message.
#[verifier::external_body]
pub(crate) fn parse_json(text: &str) -> (r: Result<Json, String>)
    ensures
        match r {
            Ok(j) => serde_parse(text@) == Ok::<JsonV, Seq<char>>(j@),
            Err(m) => serde_parse(text@) == Err::<JsonV, Seq<char>>(m@),
        },
{
    match serde_json::from_str::<serde_json::Value>(text) {
        Ok(v) => Ok(from_serde(v)),
        Err(e) => Err(e.to_string()),
    }
}

/// Calls `serde_json::Value::to_string`; the contract names its result.
#[verifier::external_body]
pub(crate) fn to_json_text(doc: &Json) -> (r: String)
    ensures
        r@ == serde_text(doc@),
{
    to_serde(doc).to_string()
}

} // verus!
