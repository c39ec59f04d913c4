use vstd::prelude::*;

verus! {

/// Keyed storage with a two-part unsigned key and one value per key.
///
/// This models the contract's persisted state: catalog entries, oracle
/// bindings and the contract's own asset holdings are all single values
/// under a key. The two key parts cover both plain keys (second part
/// zero) and asset keys (identifier and nonce).
pub struct KvStore<V> {
    entries: Vec<(u64, u64, V)>,
}

/// No key occurs twice among the entries.
pub open spec fn keys_unique<V>(s: Seq<(u64, u64, V)>) -> bool {
    forall|i: int, j: int|
        0 <= i < j < s.len() ==> ((#[trigger] s[i]).0, s[i].1) != ((#[trigger] s[j]).0, s[j].1)
}

/// No entry carries the key `(a, b)`.
pub open spec fn key_absent<V>(s: Seq<(u64, u64, V)>, a: u64, b: u64) -> bool {
    forall|i: int| 0 <= i < s.len() ==> ((#[trigger] s[i]).0, s[i].1) != (a, b)
}

/// The value stored under `(a, b)`, scanning from the most recent entry.
pub open spec fn lookup<V>(s: Seq<(u64, u64, V)>, a: u64, b: u64) -> Option<V>
    decreases s.len(),
{
    if s.len() == 0 {
        None
    } else if s.last().0 == a && s.last().1 == b {
        Some(s.last().2)
    } else {
        lookup(s.drop_last(), a, b)
    }
}

proof fn lemma_lookup_absent<V>(s: Seq<(u64, u64, V)>, a: u64, b: u64)
    requires
        key_absent(s, a, b),
    ensures
        lookup(s, a, b) is None,
    decreases s.len(),
{
    if s.len() > 0 {
        assert(s[s.len() - 1] == s.last());
        lemma_lookup_absent(s.drop_last(), a, b);
    }
}

proof fn lemma_lookup_push<V>(s: Seq<(u64, u64, V)>, a: u64, b: u64, v: V)
    ensures
        lookup(s.push((a, b, v)), a, b) == Some(v),
        forall|x: u64, y: u64|
            (x, y) != (a, b) ==> #[trigger] lookup(s.push((a, b, v)), x, y) == lookup(s, x, y),
{
    assert(s.push((a, b, v)).drop_last() =~= s);
    assert(s.push((a, b, v)).last() == (a, b, v));
}

proof fn lemma_unique_push<V>(s: Seq<(u64, u64, V)>, a: u64, b: u64, v: V)
    requires
        keys_unique(s),
        key_absent(s, a, b),
    ensures
        keys_unique(s.push((a, b, v))),
{
    let t = s.push((a, b, v));
    assert forall|i: int, j: int| 0 <= i < j < t.len() implies ((#[trigger] t[i]).0, t[i].1)
        != ((#[trigger] t[j]).0, t[j].1) by {
        if j == s.len() {
            assert(t[i] == s[i]);
        } else {
            assert(t[i] == s[i]);
            assert(t[j] == s[j]);
        }
    }
}

proof fn lemma_lookup_remove<V>(s: Seq<(u64, u64, V)>, idx: int, a: u64, b: u64)
    requires
        keys_unique(s),
        0 <= idx < s.len(),
        s[idx].0 == a && s[idx].1 == b,
    ensures
        keys_unique(s.remove(idx)),
        key_absent(s.remove(idx), a, b),
        forall|x: u64, y: u64|
            (x, y) != (a, b) ==> #[trigger] lookup(s.remove(idx), x, y) == lookup(s, x, y),
    decreases s.len(),
{
    let r = s.remove(idx);
    assert forall|i: int| 0 <= i < r.len() implies r[i] == (if i < idx {
        s[i]
    } else {
        s[i + 1]
    }) by {}
    assert(keys_unique(r));
    assert(key_absent(r, a, b));
    if idx == s.len() - 1 {
        assert(r =~= s.drop_last());
        assert forall|x: u64, y: u64| (x, y) != (a, b) implies #[trigger] lookup(r, x, y)
            == lookup(s, x, y) by {
            assert(s.last() == s[idx]);
        }
    } else {
        assert(s.len() >= 2);
        let d = s.drop_last();
        assert(keys_unique(d));
        assert(d[idx] == s[idx]);
        lemma_lookup_remove(d, idx, a, b);
        assert(r.drop_last() =~= d.remove(idx));
        assert(r.last() == s.last());
        assert forall|x: u64, y: u64| (x, y) != (a, b) implies #[trigger] lookup(r, x, y)
            == lookup(s, x, y) by {
            if r.last().0 == x && r.last().1 == y {
            } else {
                assert(lookup(r, x, y) == lookup(d.remove(idx), x, y));
                assert(lookup(s, x, y) == lookup(d, x, y));
            }
        }
    }
}

impl<V: Copy> KvStore<V> {
    /// Keys are unique, so each key names at most one value.
    pub closed spec fn wf(self) -> bool {
        keys_unique(self.entries@)
    }

    /// The value currently stored under `(a, b)`, if any.
    pub closed spec fn spec_get(self, a: u64, b: u64) -> Option<V> {
        lookup(self.entries@, a, b)
    }

    pub fn new() -> (r: Self)
        ensures
            r.wf(),
            forall|a: u64, b: u64| #[trigger] r.spec_get(a, b) is None,
    {
        KvStore { entries: Vec::new() }
    }

    /// Index of the entry with key `(a, b)`, if one exists.
    fn find(&self, a: u64, b: u64) -> (r: Option<usize>)
        ensures
            match r {
                Some(i) => i < self.entries@.len() && self.entries@[i as int].0 == a
                    && self.entries@[i as int].1 == b,
                None => key_absent(self.entries@, a, b),
            },
    {
        let n = self.entries.len();
        let mut i: usize = 0;
        while i < n
            invariant
                i <= n,
                n == self.entries@.len(),
                forall|j: int| 0 <= j < i ==> ((#[trigger] self.entries@[j]).0,
                    self.entries@[j].1) != (a, b),
            decreases n - i,
        {
            let (x, y, _) = self.entries[i];
            if x == a && y == b {
                return Some(i);
            }
            i = i + 1;
        }
        None
    }

    pub fn get(&self, a: u64, b: u64) -> (r: Option<V>)
        requires
            self.wf(),
        ensures
            r == self.spec_get(a, b),
    {
        let mut i: usize = self.entries.len();
        proof {
            assert(self.entries@.subrange(0, i as int) =~= self.entries@);
        }
        while i > 0
            invariant
                i <= self.entries@.len(),
                lookup(self.entries@.subrange(0, i as int), a, b) == self.spec_get(a, b),
            decreases i,
        {
            let (x, y, v) = self.entries[i - 1];
            proof {
                let pre = self.entries@.subrange(0, i as int);
                assert(pre.last() == self.entries@[i - 1]);
                assert(pre.drop_last() =~= self.entries@.subrange(0, i - 1));
            }
            if x == a && y == b {
                return Some(v);
            }
            i = i - 1;
        }
        proof {
            assert(self.entries@.subrange(0, 0) =~= Seq::<(u64, u64, V)>::empty());
        }
        None
    }

    pub fn insert(&mut self, a: u64, b: u64, v: V)
        requires
            old(self).wf(),
        ensures
            final(self).wf(),
            final(self).spec_get(a, b) == Some(v),
            forall|x: u64, y: u64|
                (x, y) != (a, b) ==> #[trigger] final(self).spec_get(x, y) == old(self).spec_get(
                    x,
                    y,
                ),
    {
        let ghost s0 = self.entries@;
        match self.find(a, b) {
            Some(i) => {
                self.entries.remove(i);
                proof {
                    lemma_lookup_remove(s0, i as int, a, b);
                }
            },
            None => {},
        }
        let ghost s1 = self.entries@;
        self.entries.push((a, b, v));
        proof {
            lemma_unique_push(s1, a, b, v);
            lemma_lookup_push(s1, a, b, v);
        }
    }

    pub fn remove(&mut self, a: u64, b: u64)
        requires
            old(self).wf(),
        ensures
            final(self).wf(),
            final(self).spec_get(a, b) is None,
            forall|x: u64, y: u64|
                (x, y) != (a, b) ==> #[trigger] final(self).spec_get(x, y) == old(self).spec_get(
                    x,
                    y,
                ),
    {
        let ghost s0 = self.entries@;
        match self.find(a, b) {
            Some(i) => {
                self.entries.remove(i);
                proof {
                    lemma_lookup_remove(s0, i as int, a, b);
                    lemma_lookup_absent(self.entries@, a, b);
                }
            },
            None => {
                proof {
                    lemma_lookup_absent(s0, a, b);
                }
            },
        }
    }
}

} // verus!
