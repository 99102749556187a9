//! A set of block indices kept in ascending order, for the stream parsers
//! that must close every block they opened, lowest index first.
use vstd::prelude::*;

verus! {

/// Each element below every later one: no index twice, ascending.
pub open spec fn strictly_sorted(s: Seq<usize>) -> bool {
    forall|i: int, j: int| 0 <= i < j < s.len() ==> s[i] < s[j]
}

/// The first position at or after `i` whose element is at least `x`.
pub open spec fn first_at_least(s: Seq<usize>, x: usize, i: int) -> int
    decreases s.len() - i,
{
    if i < 0 || i >= s.len() {
        s.len() as int
    } else if s[i] >= x {
        i
    } else {
        first_at_least(s, x, i + 1)
    }
}

/// Where `x` sits, or would sit, in a sorted sequence.
pub open spec fn ins_pos(s: Seq<usize>, x: usize) -> int {
    first_at_least(s, x, 0)
}

/// `s` with `x` added in order.
pub open spec fn inserted(s: Seq<usize>, x: usize) -> Seq<usize> {
    if s.contains(x) {
        s
    } else {
        s.insert(ins_pos(s, x), x)
    }
}

/// `s` without `x`.
pub open spec fn removed(s: Seq<usize>, x: usize) -> Seq<usize> {
    if s.contains(x) {
        s.remove(ins_pos(s, x))
    } else {
        s
    }
}

proof fn lemma_first_at_least(s: Seq<usize>, x: usize, i: int)
    requires
        0 <= i <= s.len(),
        strictly_sorted(s),
        forall|k: int| 0 <= k < i ==> s[k] < x,
    ensures
        i <= first_at_least(s, x, i) <= s.len(),
        forall|k: int| 0 <= k < first_at_least(s, x, i) ==> s[k] < x,
        first_at_least(s, x, i) < s.len() ==> s[first_at_least(s, x, i)] >= x,
        s.contains(x) <==> (first_at_least(s, x, i) < s.len() && s[first_at_least(s, x, i)]
            == x),
    decreases s.len() - i,
{
    if i < s.len() && s[i] < x {
        lemma_first_at_least(s, x, i + 1);
    } else {
        let p = first_at_least(s, x, i);
        if s.contains(x) {
            let w = choose|w: int| 0 <= w < s.len() && s[w] == x;
            if w != p {
                if w > p {
                    assert(s[p] < s[w]);
                }
            }
        }
    }
}

/// Facts about where `x` goes in a sorted sequence.
pub proof fn lemma_ins_pos(s: Seq<usize>, x: usize)
    requires
        strictly_sorted(s),
    ensures
        0 <= ins_pos(s, x) <= s.len(),
        forall|k: int| 0 <= k < ins_pos(s, x) ==> s[k] < x,
        forall|k: int| ins_pos(s, x) <= k < s.len() ==> s[k] >= x,
        s.contains(x) <==> (ins_pos(s, x) < s.len() && s[ins_pos(s, x)] == x),
        strictly_sorted(inserted(s, x)),
        strictly_sorted(removed(s, x)),
        inserted(s, x).contains(x),
        !removed(s, x).contains(x),
        forall|y: usize| y != x ==> (inserted(s, x).contains(y) <==> s.contains(y)),
        forall|y: usize| y != x ==> (removed(s, x).contains(y) <==> s.contains(y)),
{
    lemma_first_at_least(s, x, 0);
    let p = ins_pos(s, x);
    assert forall|k: int| p <= k < s.len() implies s[k] >= x by {
        if k > p {
            assert(s[p] < s[k]);
        }
    }
    if !s.contains(x) {
        let t = s.insert(p, x);
        assert(t[p] == x);
        assert forall|i: int, j: int| 0 <= i < j < t.len() implies t[i] < t[j] by {
            if j < p {
                assert(t[i] == s[i] && t[j] == s[j]);
            } else if j == p {
                assert(t[i] == s[i]);
            } else if i < p {
                assert(t[j] == s[j - 1] && t[i] == s[i]);
            } else if i == p {
                assert(t[j] == s[j - 1]);
                assert(s[j - 1] != x);
            } else {
                assert(t[i] == s[i - 1] && t[j] == s[j - 1]);
            }
        }
        assert forall|y: usize| y != x implies (t.contains(y) <==> s.contains(y)) by {
            if t.contains(y) {
                let w = choose|w: int| 0 <= w < t.len() && t[w] == y;
                if w < p {
                    assert(s[w] == y);
                } else {
                    assert(s[w - 1] == y);
                }
            }
            if s.contains(y) {
                let w = choose|w: int| 0 <= w < s.len() && s[w] == y;
                if w < p {
                    assert(t[w] == y);
                } else {
                    assert(t[w + 1] == y);
                }
            }
        }
    } else {
        let t = s.remove(p);
        assert forall|i: int, j: int| 0 <= i < j < t.len() implies t[i] < t[j] by {
            if j < p {
                assert(t[i] == s[i] && t[j] == s[j]);
            } else if i < p {
                assert(t[i] == s[i] && t[j] == s[j + 1]);
            } else {
                assert(t[i] == s[i + 1] && t[j] == s[j + 1]);
            }
        }
        if t.contains(x) {
            let w = choose|w: int| 0 <= w < t.len() && t[w] == x;
            if w < p {
                assert(s[w] == x && s[w] < s[p]);
            } else {
                assert(s[w + 1] == x && s[p] < s[w + 1]);
            }
        }
        assert forall|y: usize| y != x implies (t.contains(y) <==> s.contains(y)) by {
            if t.contains(y) {
                let w = choose|w: int| 0 <= w < t.len() && t[w] == y;
                if w < p {
                    assert(s[w] == y);
                } else {
                    assert(s[w + 1] == y);
                }
            }
            if s.contains(y) {
                let w = choose|w: int| 0 <= w < s.len() && s[w] == y;
                if w < p {
                    assert(t[w] == y);
                } else {
                    assert(w != p);
                    assert(t[w - 1] == y);
                }
            }
        }
    }
}

/// `s` with each of `xs` added in order: the indices of both, ascending and
/// without repeats.
pub open spec fn inserted_all(s: Seq<usize>, xs: Seq<usize>) -> Seq<usize>
    decreases xs.len(),
{
    if xs.len() == 0 {
        s
    } else {
        inserted(inserted_all(s, xs.drop_last()), xs.last())
    }
}

/// A set of indices; its view lists them in ascending order.
pub struct IndexSet {
    items: Vec<usize>,
}

impl View for IndexSet {
    type V = Seq<usize>;

    closed spec fn view(&self) -> Seq<usize> {
        self.items@
    }
}

impl IndexSet {
    #[verifier::type_invariant]
    closed spec fn wf(self) -> bool {
        strictly_sorted(self.items@)
    }

    pub fn new() -> (r: IndexSet)
        ensures
            r@ == Seq::<usize>::empty(),
    {
        IndexSet { items: Vec::new() }
    }

    fn position(&self, x: usize) -> (r: usize)
        ensures
            r == ins_pos(self@, x),
            r <= self@.len(),
    {
        proof {
            use_type_invariant(self);
            lemma_ins_pos(self@, x);
        }
        let mut i: usize = 0;
        while i < self.items.len() && self.items[i] < x
            invariant
                i <= self.items.len(),
                first_at_least(self.items@, x, i as int) == ins_pos(self.items@, x),
            decreases self.items.len() - i,
        {
            i = i + 1;
        }
        i
    }

    pub fn contains(&self, x: usize) -> (r: bool)
        ensures
            r == self@.contains(x),
    {
        proof {
            use_type_invariant(self);
            lemma_ins_pos(self@, x);
        }
        let p = self.position(x);
        p < self.items.len() && self.items[p] == x
    }

    /// Adds `x`; says whether it was new.
    pub fn insert(&mut self, x: usize) -> (r: bool)
        ensures
            r == !old(self)@.contains(x),
            final(self)@ == inserted(old(self)@, x),
    {
        proof {
            use_type_invariant(&*self);
            lemma_ins_pos(self@, x);
        }
        let p = self.position(x);
        if p < self.items.len() && self.items[p] == x {
            return false;
        }
        let mut items: Vec<usize> = Vec::new();
        std::mem::swap(&mut items, &mut self.items);
        items.insert(p, x);
        self.items = items;
        true
    }

    /// Removes `x`; says whether it was there.
    pub fn remove(&mut self, x: usize) -> (r: bool)
        ensures
            r == old(self)@.contains(x),
            final(self)@ == removed(old(self)@, x),
    {
        proof {
            use_type_invariant(&*self);
            lemma_ins_pos(self@, x);
        }
        let p = self.position(x);
        if p < self.items.len() && self.items[p] == x {
            let mut items: Vec<usize> = Vec::new();
            std::mem::swap(&mut items, &mut self.items);
            items.remove(p);
            self.items = items;
            true
        } else {
            false
        }
    }

    /// Empties the set, handing out its indices in ascending order.
    pub fn drain(&mut self) -> (r: Vec<usize>)
        ensures
            r@ == old(self)@,
            strictly_sorted(r@),
            final(self)@ == Seq::<usize>::empty(),
    {
        proof {
            use_type_invariant(&*self);
        }
        let mut items: Vec<usize> = Vec::new();
        std::mem::swap(&mut items, &mut self.items);
        items
    }
}

} // verus!
