//! A string-keyed table where a later entry for a key replaces an earlier
//! one, viewed as a map.
use vstd::prelude::*;
use crate::text::str_eq;

verus! {

pub struct Table<T> {
    entries: Vec<(String, T)>,
}

pub open spec fn table_map<T: View>(e: Seq<(String, T)>) -> Map<Seq<char>, T::V>
    decreases e.len(),
{
    if e.len() == 0 {
        Map::empty()
    } else {
        table_map(e.drop_last()).insert(e.last().0@, e.last().1@)
    }
}

/// The entry for `k` is the last one holding it.
proof fn lemma_table_map_last<T: View>(e: Seq<(String, T)>, k: Seq<char>, j: int)
    requires
        0 <= j < e.len(),
        e[j].0@ == k,
        forall|i: int| j < i < e.len() ==> (#[trigger] e[i]).0@ != k,
    ensures
        table_map(e).contains_key(k),
        table_map(e)[k] == e[j].1@,
    decreases e.len(),
{
    if j < e.len() - 1 {
        lemma_table_map_last(e.drop_last(), k, j);
    }
}

proof fn lemma_table_map_none<T: View>(e: Seq<(String, T)>, k: Seq<char>)
    requires
        forall|i: int| 0 <= i < e.len() ==> (#[trigger] e[i]).0@ != k,
    ensures
        !table_map(e).contains_key(k),
    decreases e.len(),
{
    if e.len() > 0 {
        lemma_table_map_none(e.drop_last(), k);
    }
}

impl<T: View> View for Table<T> {
    type V = Map<Seq<char>, T::V>;

    closed spec fn view(&self) -> Map<Seq<char>, T::V> {
        table_map(self.entries@)
    }
}

impl<T: View> Table<T> {
    pub fn new() -> (r: Table<T>)
        ensures
            r@ == Map::<Seq<char>, T::V>::empty(),
    {
        Table { entries: Vec::new() }
    }

    /// Binds `key` to `value`, replacing any earlier binding.
    pub fn insert(&mut self, key: String, value: T)
        ensures
            final(self)@ == old(self)@.insert(key@, value@),
    {
        let ghost before = self.entries@;
        self.entries.push((key, value));
        assert(self.entries@.drop_last() == before);
    }

    /// The value bound to `key`.
    pub fn get(&self, key: &str) -> (r: Option<&T>)
        ensures
            match r {
                Some(v) => self@.contains_key(key@) && self@[key@] == v@,
                None => !self@.contains_key(key@),
            },
    {
        let mut j: usize = self.entries.len();
        while j > 0
            invariant
                j <= self.entries@.len(),
                forall|i: int| j <= i < self.entries@.len() ==> (#[trigger] self.entries@[i]).0@
                    != key@,
            decreases j,
        {
            if str_eq(self.entries[j - 1].0.as_str(), key) {
                proof {
                    lemma_table_map_last(self.entries@, key@, j - 1);
                }
                return Some(&self.entries[j - 1].1);
            }
            j = j - 1;
        }
        proof {
            lemma_table_map_none(self.entries@, key@);
        }
        None
    }

    /// Whether `key` is bound.
    pub fn contains_key(&self, key: &str) -> (r: bool)
        ensures
            r == self@.contains_key(key@),
    {
        self.get(key).is_some()
    }
}

} // verus!
