use vstd::prelude::*;

use crate::addresses::Address;

verus! {

/// Whether index `i` of `s` holds key `k`.
pub open spec fn key_at<V>(s: Seq<(Address, V)>, k: Address, i: int) -> bool {
    0 <= i < s.len() && s[i].0 == k
}

/// Whether some index of `s` holds key `k`.
pub open spec fn has_key<V>(s: Seq<(Address, V)>, k: Address) -> bool {
    exists|i: int| key_at(s, k, i)
}

/// Whether no two indices of `s` hold the same key.
pub open spec fn distinct_keys<V>(s: Seq<(Address, V)>) -> bool {
    forall|i: int, j: int|
        0 <= i < j < s.len() ==> (#[trigger] s[i]).0 != (#[trigger] s[j]).0
}

/// The finite map a sequence of key-value pairs stands for (later pairs win,
/// though under `distinct_keys` every key occurs at most once).
pub open spec fn seq_to_map<V>(s: Seq<(Address, V)>) -> Map<Address, V>
    decreases s.len(),
{
    if s.len() == 0 {
        Map::empty()
    } else {
        seq_to_map(s.drop_last()).insert(s.last().0, s.last().1)
    }
}

proof fn lemma_dom<V>(s: Seq<(Address, V)>)
    ensures
        forall|k: Address| #[trigger] seq_to_map(s).dom().contains(k) <==> has_key(s, k),
    decreases s.len(),
{
    if s.len() > 0 {
        lemma_dom(s.drop_last());
        assert forall|k: Address| #[trigger] seq_to_map(s).dom().contains(k) <==> has_key(
            s,
            k,
        ) by {
            if seq_to_map(s).dom().contains(k) {
                if k == s.last().0 {
                    assert(key_at(s, k, s.len() - 1));
                } else {
                    assert(seq_to_map(s.drop_last()).dom().contains(k));
                    assert(has_key(s.drop_last(), k));
                    let i = choose|i: int| key_at(s.drop_last(), k, i);
                    assert(key_at(s, k, i));
                }
            }
            if has_key(s, k) {
                let i = choose|i: int| key_at(s, k, i);
                if i < s.len() - 1 {
                    assert(key_at(s.drop_last(), k, i));
                    assert(has_key(s.drop_last(), k));
                    assert(seq_to_map(s.drop_last()).dom().contains(k));
                } else {
                    assert(k == s.last().0);
                }
            }
        }
    }
}

proof fn lemma_distinct_drop_last<V>(s: Seq<(Address, V)>)
    requires
        distinct_keys(s),
        s.len() > 0,
    ensures
        distinct_keys(s.drop_last()),
{
    assert forall|i: int, j: int|
        0 <= i < j < s.drop_last().len() implies (#[trigger] s.drop_last()[i]).0 != (
    #[trigger] s.drop_last()[j]).0 by {
        assert(s.drop_last()[i] == s[i]);
        assert(s.drop_last()[j] == s[j]);
    }
}

proof fn lemma_index<V>(s: Seq<(Address, V)>, k: Address, i: int)
    requires
        distinct_keys(s),
        key_at(s, k, i),
    ensures
        seq_to_map(s).dom().contains(k),
        seq_to_map(s)[k] == s[i].1,
    decreases s.len(),
{
    lemma_dom(s);
    if i < s.len() - 1 {
        assert(s[i].0 != s[s.len() - 1].0);
        lemma_distinct_drop_last(s);
        assert(key_at(s.drop_last(), k, i));
        lemma_index(s.drop_last(), k, i);
    }
}

proof fn lemma_remove<V>(s: Seq<(Address, V)>, k: Address, i: int)
    requires
        distinct_keys(s),
        key_at(s, k, i),
    ensures
        distinct_keys(s.remove(i)),
        !has_key(s.remove(i), k),
        seq_to_map(s.remove(i)) == seq_to_map(s).remove(k),
    decreases s.len(),
{
    s.remove_ensures(i);
    let t = s.remove(i);
    assert forall|a: int, b: int|
        0 <= a < b < t.len() implies (#[trigger] t[a]).0 != (#[trigger] t[b]).0 by {
        let a0: int = if a < i { a } else { a + 1 };
        let b0: int = if b < i { b } else { b + 1 };
        assert(t[a] == s[a0]);
        assert(t[b] == s[b0]);
    }
    assert forall|j: int| !key_at(t, k, j) by {
        if 0 <= j < t.len() {
            let j0: int = if j < i { j } else { j + 1 };
            assert(t[j] == s[j0]);
            if j0 != i {
                assert(s[j0].0 != s[i].0);
            }
        }
    }
    lemma_dom(s);
    lemma_dom(t);
    if i == s.len() - 1 {
        assert(t =~= s.drop_last());
        lemma_distinct_drop_last(s);
        assert(!has_key(s.drop_last(), k));
        lemma_dom(s.drop_last());
        assert(seq_to_map(s) == seq_to_map(s.drop_last()).insert(k, s.last().1));
        assert(seq_to_map(s).remove(k) =~= seq_to_map(s.drop_last())) by {
            assert forall|k2: Address|
                seq_to_map(s).remove(k).dom().contains(k2) <==> seq_to_map(
                    s.drop_last(),
                ).dom().contains(k2) by {}
        }
    } else {
        let dl = s.drop_last();
        let p = s.last();
        lemma_distinct_drop_last(s);
        assert(key_at(dl, k, i));
        lemma_remove(dl, k, i);
        assert(t.drop_last() =~= dl.remove(i)) by {
            dl.remove_ensures(i);
            assert(t.drop_last().len() == dl.remove(i).len());
            assert forall|j: int|
                0 <= j < t.drop_last().len() implies t.drop_last()[j] == dl.remove(i)[j] by {
                let j0: int = if j < i { j } else { j + 1 };
                assert(t[j] == s[j0]);
                assert(dl.remove(i)[j] == dl[j0]);
                assert(dl[j0] == s[j0]);
            }
        }
        assert(t[t.len() - 1] == s[t.len() as int]);
        assert(t.last() == p);
        assert(t.len() > 0);
        assert(seq_to_map(t) == seq_to_map(dl.remove(i)).insert(p.0, p.1));
        assert(seq_to_map(t) == seq_to_map(dl).remove(k).insert(p.0, p.1));
        // p's key differs from k because i points below the last index
        assert(s[i].0 != s[s.len() - 1].0);
        assert(p.0 != k);
        assert(seq_to_map(dl).remove(k).insert(p.0, p.1) =~= seq_to_map(dl).insert(
            p.0,
            p.1,
        ).remove(k));
        assert(seq_to_map(s) == seq_to_map(dl).insert(p.0, p.1));
    }
}

/// An address-keyed table of records: the executable form of a
/// `Map<Address, V>`, with at most one record per address.
pub struct Table<V> {
    pairs: Vec<(Address, V)>,
}

impl<V> View for Table<V> {
    type V = Map<Address, V>;

    closed spec fn view(&self) -> Map<Address, V> {
        seq_to_map(self.pairs@)
    }
}

impl<V: Copy> Table<V> {
    /// Every address keys at most one record.
    pub closed spec fn wf(self) -> bool {
        distinct_keys(self.pairs@)
    }

    /// An empty table.
    pub fn new() -> (t: Table<V>)
        ensures
            t.wf(),
            t@ == Map::<Address, V>::empty(),
    {
        Table { pairs: Vec::new() }
    }

    fn find(&self, k: &Address) -> (r: Option<usize>)
        ensures
            match r {
                Some(i) => key_at(self.pairs@, *k, i as int),
                None => !has_key(self.pairs@, *k),
            },
    {
        let n = self.pairs.len();
        for i in 0..n
            invariant
                n == self.pairs@.len(),
                forall|j: int| 0 <= j < i ==> (#[trigger] self.pairs@[j]).0 != *k,
        {
            if self.pairs[i].0 == *k {
                return Some(i);
            }
        }
        None
    }

    /// Whether a record exists at address `k`.
    pub fn contains(&self, k: &Address) -> (r: bool)
        requires
            self.wf(),
        ensures
            r == self@.dom().contains(*k),
    {
        proof {
            lemma_dom(self.pairs@);
        }
        self.find(k).is_some()
    }

    /// The record at address `k`, if any.
    pub fn get(&self, k: &Address) -> (r: Option<V>)
        requires
            self.wf(),
        ensures
            match r {
                Some(v) => self@.dom().contains(*k) && self@[*k] == v,
                None => !self@.dom().contains(*k),
            },
    {
        match self.find(k) {
            Some(i) => {
                proof {
                    lemma_index(self.pairs@, *k, i as int);
                }
                Some(self.pairs[i].1)
            },
            None => {
                proof {
                    lemma_dom(self.pairs@);
                }
                None
            },
        }
    }

    /// Stores `v` at address `k`, replacing any record already there.
    pub fn set(&mut self, k: Address, v: V)
        requires
            old(self).wf(),
        ensures
            final(self).wf(),
            final(self)@ == old(self)@.insert(k, v),
    {
        let ghost s0 = self.pairs@;
        match self.find(&k) {
            Some(i) => {
                proof {
                    lemma_remove(s0, k, i as int);
                }
                self.pairs.remove(i);
            },
            None => {
                proof {
                    lemma_dom(s0);
                    assert(seq_to_map(s0).remove(k) =~= seq_to_map(s0));
                }
            },
        }
        let ghost s1 = self.pairs@;
        proof {
            lemma_dom(s1);
            assert(!has_key(s1, k));
            assert(seq_to_map(s1) == seq_to_map(s0).remove(k));
        }
        self.pairs.push((k, v));
        proof {
            let s2 = self.pairs@;
            assert(s2.drop_last() =~= s1);
            assert(s2.last() == (k, v));
            assert(seq_to_map(s2) == seq_to_map(s1).insert(k, v));
            assert(seq_to_map(s1).insert(k, v) =~= seq_to_map(s0).insert(k, v));
            assert forall|a: int, b: int|
                0 <= a < b < s2.len() implies (#[trigger] s2[a]).0 != (#[trigger] s2[b]).0 by {
                if b < s2.len() - 1 {
                    assert(s2[a] == s1[a]);
                    assert(s2[b] == s1[b]);
                } else {
                    assert(s2[a] == s1[a]);
                    assert(!key_at(s1, k, a));
                }
            }
        }
    }

    /// Removes the record at address `k`, if any.
    pub fn remove(&mut self, k: &Address)
        requires
            old(self).wf(),
        ensures
            final(self).wf(),
            final(self)@ == old(self)@.remove(*k),
    {
        match self.find(k) {
            Some(i) => {
                proof {
                    lemma_remove(self.pairs@, *k, i as int);
                }
                self.pairs.remove(i);
            },
            None => {
                proof {
                    lemma_dom(self.pairs@);
                    assert(seq_to_map(self.pairs@).remove(*k) =~= seq_to_map(self.pairs@));
                }
            },
        }
    }
}

} // verus!
