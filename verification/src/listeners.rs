use vstd::prelude::*;

verus! {

/// A key under which listeners are filed: equality of keys is equality of their views.
pub trait RegistryKey: View + Sized {
    /// Whether two keys are the same.
    fn same_key(&self, other: &Self) -> (r: bool)
        ensures
            r == (self@ == other@);
}

impl RegistryKey for String {
    fn same_key(&self, other: &Self) -> (r: bool) {
        *self == *other
    }
}

/// Whether no two entries of `s` share a key.
pub open spec fn distinct_keys<K: View, L>(s: Seq<(K, L)>) -> bool {
    forall|i: int, j: int| 0 <= i < j < s.len() ==> s[i].0@ != s[j].0@
}

/// Whether some entry of `s` has key `k`.
pub open spec fn has_key<K: View, L>(s: Seq<(K, L)>, k: K::V) -> bool {
    exists|i: int| 0 <= i < s.len() && s[i].0@ == k
}

/// The map from keys to listeners that the entries `s` stand for.
pub open spec fn entries_map<K: View, L>(s: Seq<(K, L)>) -> Map<K::V, L> {
    Map::new(
        |k: K::V| has_key(s, k),
        |k: K::V| s[choose|i: int| 0 <= i < s.len() && s[i].0@ == k].1,
    )
}

/// With distinct keys, the map sends the key of each entry to that entry's listener.
proof fn lemma_entry_in_map<K: View, L>(s: Seq<(K, L)>, i: int)
    requires
        distinct_keys(s),
        0 <= i < s.len(),
    ensures
        entries_map(s).contains_key(s[i].0@),
        entries_map(s)[s[i].0@] == s[i].1,
{
    let k = s[i].0@;
    assert(has_key(s, k));
    let j = choose|j: int| 0 <= j < s.len() && s[j].0@ == k;
    if j != i {
        if j < i {
            assert(s[j].0@ != s[i].0@);
        } else {
            assert(s[i].0@ != s[j].0@);
        }
    }
}

/// Replacing the listener of the entry at `i` (keeping its key) replaces it in the map.
proof fn lemma_update_entry<K: View, L>(s: Seq<(K, L)>, i: int, e: (K, L))
    requires
        distinct_keys(s),
        0 <= i < s.len(),
        e.0@ == s[i].0@,
    ensures
        distinct_keys(s.update(i, e)),
        entries_map(s.update(i, e)) == entries_map(s).insert(e.0@, e.1),
{
    let t = s.update(i, e);
    assert(distinct_keys(t)) by {
        assert forall|a: int, b: int| 0 <= a < b < t.len() implies t[a].0@ != t[b].0@ by {
            assert(s[a].0@ != s[b].0@);
        }
    }
    let m = entries_map(s).insert(e.0@, e.1);
    assert forall|q: K::V| #[trigger] entries_map(t).contains_key(q) <==> m.contains_key(q) by {
        if has_key(t, q) {
            let j = choose|j: int| 0 <= j < t.len() && t[j].0@ == q;
            if j != i {
                assert(s[j].0@ == q);
                assert(has_key(s, q));
            }
        }
        if has_key(s, q) {
            let j = choose|j: int| 0 <= j < s.len() && s[j].0@ == q;
            assert(t[j].0@ == q);
            assert(has_key(t, q));
        }
        if q == e.0@ {
            assert(t[i].0@ == q);
            assert(has_key(t, q));
        }
    }
    assert forall|q: K::V| #[trigger] entries_map(t).contains_key(q) implies entries_map(t)[q] == m[q] by {
        let j = choose|j: int| 0 <= j < t.len() && t[j].0@ == q;
        lemma_entry_in_map(t, j);
        if j == i {
        } else {
            lemma_entry_in_map(s, j);
        }
    }
    assert(entries_map(t) =~= m);
}

/// Appending an entry under a new key adds it to the map.
proof fn lemma_push_entry<K: View, L>(s: Seq<(K, L)>, e: (K, L))
    requires
        distinct_keys(s),
        !has_key(s, e.0@),
    ensures
        distinct_keys(s.push(e)),
        entries_map(s.push(e)) == entries_map(s).insert(e.0@, e.1),
{
    let t = s.push(e);
    assert(distinct_keys(t)) by {
        assert forall|a: int, b: int| 0 <= a < b < t.len() implies t[a].0@ != t[b].0@ by {
            if b == s.len() {
                assert(s[a].0@ != e.0@);
            } else {
                assert(s[a].0@ != s[b].0@);
            }
        }
    }
    let m = entries_map(s).insert(e.0@, e.1);
    assert forall|q: K::V| #[trigger] entries_map(t).contains_key(q) <==> m.contains_key(q) by {
        if has_key(t, q) {
            let j = choose|j: int| 0 <= j < t.len() && t[j].0@ == q;
            if j < s.len() {
                assert(s[j].0@ == q);
                assert(has_key(s, q));
            }
        }
        if has_key(s, q) {
            let j = choose|j: int| 0 <= j < s.len() && s[j].0@ == q;
            assert(t[j].0@ == q);
            assert(has_key(t, q));
        }
        if q == e.0@ {
            assert(t[s.len() as int].0@ == q);
            assert(has_key(t, q));
        }
    }
    assert forall|q: K::V| #[trigger] entries_map(t).contains_key(q) implies entries_map(t)[q] == m[q] by {
        let j = choose|j: int| 0 <= j < t.len() && t[j].0@ == q;
        lemma_entry_in_map(t, j);
        if j < s.len() {
            lemma_entry_in_map(s, j);
        }
    }
    assert(entries_map(t) =~= m);
}

/// Removing the entry at `i` removes its key from the map.
proof fn lemma_remove_entry<K: View, L>(s: Seq<(K, L)>, i: int)
    requires
        distinct_keys(s),
        0 <= i < s.len(),
    ensures
        distinct_keys(s.remove(i)),
        entries_map(s.remove(i)) == entries_map(s).remove(s[i].0@),
{
    let t = s.remove(i);
    let k = s[i].0@;
    assert(distinct_keys(t)) by {
        assert forall|a: int, b: int| 0 <= a < b < t.len() implies t[a].0@ != t[b].0@ by {
            let a2 = if a < i { a } else { a + 1 };
            let b2 = if b < i { b } else { b + 1 };
            assert(t[a] == s[a2]);
            assert(t[b] == s[b2]);
            assert(s[a2].0@ != s[b2].0@);
        }
    }
    let m = entries_map(s).remove(k);
    assert forall|q: K::V| #[trigger] entries_map(t).contains_key(q) <==> m.contains_key(q) by {
        if has_key(t, q) {
            let j = choose|j: int| 0 <= j < t.len() && t[j].0@ == q;
            let j2 = if j < i { j } else { j + 1 };
            assert(t[j] == s[j2]);
            assert(has_key(s, q));
            if q == k {
                if j2 < i {
                    assert(s[j2].0@ != s[i].0@);
                } else {
                    assert(s[i].0@ != s[j2].0@);
                }
            }
        }
        if has_key(s, q) && q != k {
            let j = choose|j: int| 0 <= j < s.len() && s[j].0@ == q;
            assert(j != i);
            let j2 = if j < i { j } else { j - 1 };
            assert(t[j2] == s[j]);
            assert(has_key(t, q));
        }
    }
    assert forall|q: K::V| #[trigger] entries_map(t).contains_key(q) implies entries_map(t)[q] == m[q] by {
        let j = choose|j: int| 0 <= j < t.len() && t[j].0@ == q;
        let j2 = if j < i { j } else { j + 1 };
        assert(t[j] == s[j2]);
        lemma_entry_in_map(t, j);
        lemma_entry_in_map(s, j2);
    }
    assert(entries_map(t) =~= m);
}

/// Listeners filed under keys, at most one per key.
pub struct ListenerRegistry<K, L> {
    entries: Vec<(K, L)>,
}

impl<K: RegistryKey, L> View for ListenerRegistry<K, L> {
    type V = Map<K::V, L>;

    closed spec fn view(&self) -> Map<K::V, L> {
        entries_map(self.entries@)
    }
}

impl<K: RegistryKey, L> ListenerRegistry<K, L> {
    /// The registry's internal consistency: no key is filed twice.
    pub closed spec fn wf(&self) -> bool {
        distinct_keys(self.entries@)
    }

    /// Creates an empty registry.
    pub fn new() -> (r: Self)
        ensures
            r.wf(),
            r@ == Map::<K::V, L>::empty(),
    {
        let r = ListenerRegistry { entries: Vec::new() };
        assert(r@ =~= Map::<K::V, L>::empty());
        r
    }

    /// The position of the entry with key `k`, if there is one.
    fn find(&self, k: &K) -> (r: Option<usize>)
        ensures
            match r {
                Some(i) => i < self.entries@.len() && self.entries@[i as int].0@ == k@,
                None => !has_key(self.entries@, k@),
            },
    {
        let n = self.entries.len();
        for i in 0..n
            invariant
                n == self.entries@.len(),
                forall|j: int| 0 <= j < i ==> self.entries@[j].0@ != k@,
        {
            if self.entries[i].0.same_key(k) {
                return Some(i);
            }
        }
        None
    }

    /// Files `listener` under `key`, replacing any listener filed under it before.
    pub fn insert(&mut self, key: K, listener: L)
        requires
            old(self).wf(),
        ensures
            final(self).wf(),
            final(self)@ == old(self)@.insert(key@, listener),
    {
        match self.find(&key) {
            Some(i) => {
                proof {
                    lemma_update_entry(self.entries@, i as int, (key, listener));
                }
                self.entries.set(i, (key, listener));
            },
            None => {
                proof {
                    lemma_push_entry(self.entries@, (key, listener));
                }
                self.entries.push((key, listener));
            },
        }
    }

    /// Takes out the listener filed under `key`, if there is one.
    pub fn remove(&mut self, key: &K) -> (r: Option<L>)
        requires
            old(self).wf(),
        ensures
            final(self).wf(),
            final(self)@ == old(self)@.remove(key@),
            r == (if old(self)@.contains_key(key@) { Some(old(self)@[key@]) } else { None::<L> }),
    {
        match self.find(key) {
            Some(i) => {
                proof {
                    lemma_entry_in_map(self.entries@, i as int);
                    lemma_remove_entry(self.entries@, i as int);
                }
                let (_, listener) = self.entries.remove(i);
                Some(listener)
            },
            None => {
                assert(self@.remove(key@) =~= self@);
                None
            },
        }
    }

    /// The listener filed under `key`, if there is one.
    pub fn get(&self, key: &K) -> (r: Option<&L>)
        requires
            self.wf(),
        ensures
            r == (if self@.contains_key(key@) { Some(&self@[key@]) } else { None::<&L> }),
    {
        match self.find(key) {
            Some(i) => {
                proof {
                    lemma_entry_in_map(self.entries@, i as int);
                }
                Some(&self.entries[i].1)
            },
            None => None,
        }
    }

}

} // verus!
