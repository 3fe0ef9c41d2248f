//! A string-keyed association map with insertion order, the collection
//! behind template stores, scraped detail tables, configuration, and the
//! aggregated provider index.  Its view is the sequence of (key, value)
//! pairs; keys are unique.

use vstd::prelude::*;
use crate::text::str_eq;

verus! {

/// First-match lookup in a sequence of (key, value) pairs.
pub open spec fn assoc_get<V>(s: Seq<(Seq<char>, V)>, k: Seq<char>) -> Option<V>
    decreases s.len(),
{
    if s.len() == 0 {
        None
    } else if s[0].0 == k {
        Some(s[0].1)
    } else {
        assoc_get(s.drop_first(), k)
    }
}

/// Replacement of the value under `k`, or append of `(k, v)` when `k` is
/// absent.
pub open spec fn assoc_update<V>(s: Seq<(Seq<char>, V)>, k: Seq<char>, v: V) -> Seq<(Seq<char>, V)>
    decreases s.len(),
{
    if s.len() == 0 {
        seq![(k, v)]
    } else if s[0].0 == k {
        seq![(k, v)] + s.drop_first()
    } else {
        seq![s[0]] + assoc_update(s.drop_first(), k, v)
    }
}

/// Pairwise-distinct keys.
pub open spec fn distinct_keys<V>(s: Seq<(Seq<char>, V)>) -> bool {
    forall|i: int, j: int| 0 <= i < j < s.len() ==> (#[trigger] s[i]).0 != (#[trigger] s[j]).0
}

/// A map from strings to values that remembers insertion order.
#[derive(Debug)]
pub struct StrMap<V> {
    entries: Vec<(String, V)>,
}

impl<V> StrMap<V> {
    /// The pairs in insertion order, with keys as character sequences.
    pub closed spec fn view(&self) -> Seq<(Seq<char>, V)> {
        self.entries@.map_values(|p: (String, V)| (p.0@, p.1))
    }

    /// Keys are unique; every operation preserves this.
    pub open spec fn wf(&self) -> bool {
        distinct_keys(self@)
    }

    pub fn new() -> (r: StrMap<V>)
        ensures
            r@ == Seq::<(Seq<char>, V)>::empty(),
            r.wf(),
    {
        let r = StrMap { entries: Vec::new() };
        proof {
            assert(r@ =~= Seq::<(Seq<char>, V)>::empty());
        }
        r
    }

    pub fn len(&self) -> (r: usize)
        ensures
            r == self@.len(),
    {
        self.entries.len()
    }

    /// The pair at position `i`, in insertion order.
    pub fn idx(&self, i: usize) -> (r: &(String, V))
        requires
            i < self@.len(),
        ensures
            r.0@ == self@[i as int].0,
            r.1 == self@[i as int].1,
    {
        &self.entries[i]
    }

    /// Looks `k` up; the result is the value stored under `k`, if any.
    pub fn get(&self, k: &str) -> (r: Option<&V>)
        ensures
            match r {
                Some(v) => assoc_get(self@, k@) == Some(*v),
                None => assoc_get(self@, k@) is None,
            },
    {
        let n = self.entries.len();
        proof {
            assert(self@.skip(0) =~= self@);
        }
        for i in 0..n
            invariant
                n == self@.len(),
                n == self.entries@.len(),
                assoc_get(self@.skip(i as int), k@) == assoc_get(self@, k@),
        {
            proof {
                assert(self@.skip(i as int)[0] == self@[i as int]);
                assert(self@.skip(i as int).drop_first() =~= self@.skip(i + 1 as int));
            }
            if str_eq(self.entries[i].0.as_str(), k) {
                return Some(&self.entries[i].1);
            }
        }
        proof {
            assert(self@.skip(n as int) =~= Seq::<(Seq<char>, V)>::empty());
        }
        None
    }

    pub fn contains_key(&self, k: &str) -> (r: bool)
        ensures
            r == (assoc_get(self@, k@) is Some),
    {
        match self.get(k) {
            Some(_) => true,
            None => false,
        }
    }

    /// Stores `v` under `k`: replaces the value in place when `k` is
    /// present, appends otherwise.
    pub fn insert(&mut self, k: String, v: V)
        requires
            old(self).wf(),
        ensures
            final(self)@ == assoc_update(old(self)@, k@, v),
            final(self).wf(),
            assoc_get(final(self)@, k@) == Some(v),
            forall|k2: Seq<char>| k2 != k@ ==> #[trigger] assoc_get(final(self)@, k2)
                == assoc_get(old(self)@, k2),
            final(self)@.len() == if assoc_get(old(self)@, k@) is Some {
                old(self)@.len()
            } else {
                old(self)@.len() + 1
            },
    {
        let ghost s0 = self@;
        let n = self.entries.len();
        let mut i: usize = 0;
        while i < n
            invariant
                self@ == s0,
                s0 == old(self)@,
                distinct_keys(s0),
                n == self.entries@.len(),
                n == s0.len(),
                i <= n,
                forall|j: int| 0 <= j < i ==> (#[trigger] s0[j]).0 != k@,
            decreases n - i,
        {
            if str_eq(self.entries[i].0.as_str(), k.as_str()) {
                self.entries[i] = (k, v);
                proof {
                    lemma_assoc_update_found(s0, k@, v, i as int);
                    assert(self@ =~= s0.update(i as int, (k@, v)));
                    lemma_assoc_get_found(s0, k@, i as int);
                    lemma_assoc_get_found(self@, k@, i as int);
                    assert forall|k2: Seq<char>| k2 != k@ implies assoc_get(self@, k2) == assoc_get(
                        s0,
                        k2,
                    ) by {
                        lemma_assoc_get_pointwise(s0, self@, k2);
                    }
                }
                return;
            }
            i = i + 1;
        }
        self.entries.push((k, v));
        proof {
            assert(self@ =~= s0.push((k@, v)));
            lemma_assoc_update_absent(s0, k@, v);
            lemma_assoc_get_none(s0, k@);
            lemma_assoc_get_push(s0, k@, v);
            assert forall|a: int, b: int| 0 <= a < b < self@.len() implies (
            #[trigger] self@[a]).0 != (#[trigger] self@[b]).0 by {
                if b < s0.len() {
                } else {
                    assert(self@[b].0 == k@);
                    assert(self@[a] == s0[a]);
                }
            }
        }
    }

    /// Stores `v` under `k` only when `k` is absent: the first write wins.
    pub fn insert_if_absent(&mut self, k: String, v: V)
        requires
            old(self).wf(),
        ensures
            final(self).wf(),
            final(self)@ == if assoc_get(old(self)@, k@) is Some {
                old(self)@
            } else {
                old(self)@.push((k@, v))
            },
            assoc_get(final(self)@, k@) is Some,
            forall|k2: Seq<char>| k2 != k@ ==> #[trigger] assoc_get(final(self)@, k2)
                == assoc_get(old(self)@, k2),
    {
        let ghost s0 = self@;
        if !self.contains_key(k.as_str()) {
            self.entries.push((k, v));
            proof {
                assert(self@ =~= s0.push((k@, v)));
                lemma_assoc_get_none(s0, k@);
                lemma_assoc_get_push(s0, k@, v);
                assert forall|a: int, b: int| 0 <= a < b < self@.len() implies (
                #[trigger] self@[a]).0 != (#[trigger] self@[b]).0 by {
                    if b < s0.len() {
                    } else {
                        assert(self@[b].0 == k@);
                        assert(self@[a] == s0[a]);
                    }
                }
            }
        }
    }
}

/// When the first `i` keys differ from `k` and the key at `i` equals `k`,
/// updating rewrites exactly position `i`.
proof fn lemma_assoc_update_found<V>(s: Seq<(Seq<char>, V)>, k: Seq<char>, v: V, i: int)
    requires
        0 <= i < s.len(),
        forall|j: int| 0 <= j < i ==> (#[trigger] s[j]).0 != k,
        s[i].0 == k,
    ensures
        assoc_update(s, k, v) == s.update(i, (k, v)),
    decreases i,
{
    if i == 0 {
        assert(seq![(k, v)] + s.drop_first() =~= s.update(0, (k, v)));
    } else {
        let t = s.drop_first();
        assert(forall|j: int| 0 <= j < i - 1 ==> (#[trigger] t[j]).0 != k);
        lemma_assoc_update_found(t, k, v, i - 1);
        assert(seq![s[0]] + t.update(i - 1, (k, v)) =~= s.update(i, (k, v)));
    }
}

/// When no key equals `k`, updating appends the new pair.
pub proof fn lemma_assoc_update_absent<V>(s: Seq<(Seq<char>, V)>, k: Seq<char>, v: V)
    requires
        forall|j: int| 0 <= j < s.len() ==> (#[trigger] s[j]).0 != k,
    ensures
        assoc_update(s, k, v) == s.push((k, v)),
    decreases s.len(),
{
    if s.len() == 0 {
        assert(seq![(k, v)] =~= s.push((k, v)));
    } else {
        let t = s.drop_first();
        lemma_assoc_update_absent(t, k, v);
        assert(seq![s[0]] + t.push((k, v)) =~= s.push((k, v)));
    }
}

/// Lookup returns the value at the first position whose key is `k`.
proof fn lemma_assoc_get_found<V>(s: Seq<(Seq<char>, V)>, k: Seq<char>, i: int)
    requires
        0 <= i < s.len(),
        forall|j: int| 0 <= j < i ==> (#[trigger] s[j]).0 != k,
        s[i].0 == k,
    ensures
        assoc_get(s, k) == Some(s[i].1),
    decreases i,
{
    if i > 0 {
        let t = s.drop_first();
        assert(forall|j: int| 0 <= j < i - 1 ==> (#[trigger] t[j]).0 != k);
        lemma_assoc_get_found(t, k, i - 1);
    }
}

/// Two pair sequences of equal length and pointwise equal keys, equal
/// values agree on lookups of `k2` wherever their pairs agree except at
/// positions whose key is not `k2`.
proof fn lemma_assoc_get_pointwise<V>(a: Seq<(Seq<char>, V)>, b: Seq<(Seq<char>, V)>, k2: Seq<char>)
    requires
        a.len() == b.len(),
        forall|j: int| 0 <= j < a.len() ==> (#[trigger] a[j]).0 == (#[trigger] b[j]).0,
        forall|j: int| 0 <= j < a.len() && (#[trigger] a[j]).0 == k2 ==> a[j].1 == (
        #[trigger] b[j]).1,
    ensures
        assoc_get(a, k2) == assoc_get(b, k2),
    decreases a.len(),
{
    if a.len() > 0 {
        if a[0].0 == k2 {
        } else {
            let ta = a.drop_first();
            let tb = b.drop_first();
            assert(forall|j: int| 0 <= j < ta.len() ==> (#[trigger] ta[j]).0 == (
            #[trigger] tb[j]).0);
            assert forall|j: int| 0 <= j < ta.len() && (#[trigger] ta[j]).0 == k2 implies ta[j].1
                == (#[trigger] tb[j]).1 by {
                assert(ta[j] == a[j + 1]);
                assert(tb[j] == b[j + 1]);
            }
            lemma_assoc_get_pointwise(ta, tb, k2);
        }
    }
}

/// A lookup misses exactly when no pair carries the key.
pub proof fn lemma_assoc_get_none<V>(s: Seq<(Seq<char>, V)>, k: Seq<char>)
    ensures
        (assoc_get(s, k) is None) <==> (forall|j: int| 0 <= j < s.len() ==> (#[trigger] s[j]).0
            != k),
    decreases s.len(),
{
    if s.len() > 0 {
        let t = s.drop_first();
        lemma_assoc_get_none(t, k);
        if assoc_get(s, k) is None {
            assert forall|j: int| 0 <= j < s.len() implies (#[trigger] s[j]).0 != k by {
                if j > 0 {
                    assert(s[j] == t[j - 1]);
                }
            }
        }
        if forall|j: int| 0 <= j < s.len() ==> (#[trigger] s[j]).0 != k {
            assert(forall|j: int| 0 <= j < t.len() ==> (#[trigger] t[j]).0 != k);
        }
    }
}

/// Lookup after a push: the appended pair is found only when its key was
/// absent; other keys are unaffected.
pub proof fn lemma_assoc_get_push<V>(s: Seq<(Seq<char>, V)>, k: Seq<char>, v: V)
    ensures
        assoc_get(s.push((k, v)), k) == if assoc_get(s, k) is Some {
            assoc_get(s, k)
        } else {
            Some(v)
        },
        forall|k2: Seq<char>| k2 != k ==> #[trigger] assoc_get(s.push((k, v)), k2) == assoc_get(
            s,
            k2,
        ),
    decreases s.len(),
{
    let p = s.push((k, v));
    let e = Seq::<(Seq<char>, V)>::empty();
    if s.len() == 0 {
        assert(p[0] == (k, v));
        assert forall|k2: Seq<char>| k2 != k implies #[trigger] assoc_get(p, k2) == assoc_get(
            s,
            k2,
        ) by {
            assert(p.drop_first() =~= e);
            assert(assoc_get(e, k2) is None);
            assert(s =~= e);
        }
    } else {
        let t = s.drop_first();
        lemma_assoc_get_push(t, k, v);
        assert(p.drop_first() =~= t.push((k, v)));
        assert(p[0] == s[0]);
        assert forall|k2: Seq<char>| k2 != k implies #[trigger] assoc_get(p, k2) == assoc_get(
            s,
            k2,
        ) by {
            if p[0].0 != k2 {
                assert(assoc_get(t.push((k, v)), k2) == assoc_get(t, k2));
            }
        }
    }
}

} // verus!
