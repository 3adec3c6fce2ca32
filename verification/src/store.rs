//! A keyed store with the semantics of a contract storage area: a finite map
//! from keys to values where writing a key replaces its value.
use vstd::prelude::*;

verus! {

/// A key type whose executable equality agrees with the equality of its view.
pub trait StoreKey: View + Sized {
    fn same_key(&self, other: &Self) -> (r: bool)
        ensures
            r == (self@ == other@),
    ;
}

impl StoreKey for u64 {
    fn same_key(&self, other: &u64) -> (r: bool) {
        *self == *other
    }
}

/// The map that a sequence of entries denotes: the first entry for a key wins.
pub open spec fn entries_map<K: View, V: View>(s: Seq<(K, V)>) -> Map<K::V, V::V>
    decreases s.len(),
{
    if s.len() == 0 {
        Map::empty()
    } else {
        entries_map(s.drop_first()).insert(s[0].0@, s[0].1@)
    }
}

/// Index of the first entry whose key is `k`, if there is one.
pub open spec fn is_first_match<K: View, V: View>(s: Seq<(K, V)>, k: K::V, i: int) -> bool {
    &&& 0 <= i < s.len()
    &&& s[i].0@ == k
    &&& forall|j: int| 0 <= j < i ==> s[j].0@ != k
}

proof fn lemma_first_match_value<K: View, V: View>(s: Seq<(K, V)>, k: K::V, i: int)
    requires
        is_first_match(s, k, i),
    ensures
        entries_map(s).contains_key(k),
        entries_map(s)[k] == s[i].1@,
    decreases s.len(),
{
    if i > 0 {
        let t = s.drop_first();
        assert(is_first_match(t, k, i - 1)) by {
            assert forall|j: int| 0 <= j < i - 1 implies t[j].0@ != k by {
                assert(t[j] == s[j + 1]);
            }
        }
        lemma_first_match_value(t, k, i - 1);
    }
}

proof fn lemma_no_match<K: View, V: View>(s: Seq<(K, V)>, k: K::V)
    requires
        forall|j: int| 0 <= j < s.len() ==> s[j].0@ != k,
    ensures
        !entries_map(s).contains_key(k),
    decreases s.len(),
{
    if s.len() > 0 {
        let t = s.drop_first();
        assert forall|j: int| 0 <= j < t.len() implies t[j].0@ != k by {
            assert(t[j] == s[j + 1]);
        }
        lemma_no_match(t, k);
    }
}

proof fn lemma_update_first_match<K: View, V: View>(s: Seq<(K, V)>, k: K::V, i: int, e: (K, V))
    requires
        is_first_match(s, k, i),
        e.0@ == k,
    ensures
        entries_map(s.update(i, e)) == entries_map(s).insert(k, e.1@),
    decreases s.len(),
{
    let u = s.update(i, e);
    if i == 0 {
        assert(u.drop_first() =~= s.drop_first());
        assert(entries_map(u) =~= entries_map(s).insert(k, e.1@));
    } else {
        let t = s.drop_first();
        assert(is_first_match(t, k, i - 1)) by {
            assert forall|j: int| 0 <= j < i - 1 implies t[j].0@ != k by {
                assert(t[j] == s[j + 1]);
            }
        }
        lemma_update_first_match(t, k, i - 1, e);
        assert(u.drop_first() =~= t.update(i - 1, e));
        assert(s[0].0@ != k);
        assert(entries_map(u) =~= entries_map(s).insert(k, e.1@));
    }
}

proof fn lemma_push<K: View, V: View>(s: Seq<(K, V)>, e: (K, V))
    ensures
        entries_map(s.push(e)) == (if entries_map(s).contains_key(e.0@) {
            entries_map(s)
        } else {
            entries_map(s).insert(e.0@, e.1@)
        }),
    decreases s.len(),
{
    let p = s.push(e);
    if s.len() == 0 {
        assert(p.drop_first() =~= Seq::<(K, V)>::empty());
        assert(p[0] == e);
        assert(entries_map(p.drop_first()) == Map::<K::V, V::V>::empty());
        assert(entries_map(s) == Map::<K::V, V::V>::empty());
        assert(entries_map(p) =~= entries_map(s).insert(e.0@, e.1@));
    } else {
        let t = s.drop_first();
        lemma_push(t, e);
        assert(p.drop_first() =~= t.push(e));
        if entries_map(s).contains_key(e.0@) {
            assert(entries_map(p) =~= entries_map(s));
        } else {
            assert(entries_map(p) =~= entries_map(s).insert(e.0@, e.1@));
        }
    }
}

proof fn lemma_remove_first_match<K: View, V: View>(s: Seq<(K, V)>, k: K::V, i: int)
    requires
        is_first_match(s, k, i),
    ensures
        entries_map(s.remove(i)).remove(k) == entries_map(s).remove(k),
        s.remove(i).len() < s.len(),
    decreases s.len(),
{
    let r = s.remove(i);
    if i == 0 {
        assert(r =~= s.drop_first());
        assert(entries_map(r).remove(k) =~= entries_map(s).remove(k));
    } else {
        let t = s.drop_first();
        assert(is_first_match(t, k, i - 1)) by {
            assert forall|j: int| 0 <= j < i - 1 implies t[j].0@ != k by {
                assert(t[j] == s[j + 1]);
            }
        }
        lemma_remove_first_match(t, k, i - 1);
        assert(r.drop_first() =~= t.remove(i - 1));
        assert(r[0] == s[0]);
        assert(s[0].0@ != k);
        assert(entries_map(r) == entries_map(t.remove(i - 1)).insert(s[0].0@, s[0].1@));
        assert(entries_map(s) == entries_map(t).insert(s[0].0@, s[0].1@));
        let a = entries_map(t.remove(i - 1));
        let b = entries_map(t);
        assert(a.insert(s[0].0@, s[0].1@).remove(k) =~= a.remove(k).insert(s[0].0@, s[0].1@));
        assert(b.insert(s[0].0@, s[0].1@).remove(k) =~= b.remove(k).insert(s[0].0@, s[0].1@));
        assert(entries_map(r).remove(k) =~= entries_map(s).remove(k));
    }
}

/// Whether no key occurs twice among the entries.
pub open spec fn distinct_keys<K: View, V>(s: Seq<(K, V)>) -> bool {
    forall|i: int, j: int| 0 <= i < j < s.len() ==> s[i].0@ != s[j].0@
}

/// A finite map from keys to values, as a contract's storage holds it: one
/// entry per key.
pub struct Store<K: View, V> {
    entries: Vec<(K, V)>,
}

impl<K: View, V> Store<K, V> {
    /// No key is stored twice.
    #[verifier::type_invariant]
    spec fn one_entry_per_key(self) -> bool {
        distinct_keys(self.entries@)
    }
}

impl<K: View, V: View> View for Store<K, V> {
    type V = Map<K::V, V::V>;

    closed spec fn view(&self) -> Map<K::V, V::V> {
        entries_map(self.entries@)
    }
}

impl<K: StoreKey, V: View> Store<K, V> {
    /// The empty store.
    pub fn new() -> (r: Self)
        ensures
            r@ == Map::<K::V, V::V>::empty(),
    {
        Store { entries: Vec::new() }
    }

    /// A store holding the given entries; where a key occurs twice, its first entry counts.
    pub fn from_entries(entries: Vec<(K, V)>) -> (r: Self)
        ensures
            r@ == entries_map(entries@),
    {
        let ghost all = entries@;
        let mut rest = entries;
        let mut r = Store::new();
        while rest.len() > 0
            invariant
                rest@ == all.take(rest@.len() as int),
                rest@.len() <= all.len(),
                r@ == entries_map(all.skip(rest@.len() as int)),
            decreases rest@.len(),
        {
            let ghost n = rest@.len() as int;
            let e = rest.pop().unwrap();
            proof {
                assert(e == all[n - 1]);
                assert(all.skip(n - 1).drop_first() =~= all.skip(n));
                assert(all.skip(n - 1)[0] == all[n - 1]);
                assert(rest@ =~= all.take(n - 1));
            }
            r.set(e.0, e.1);
        }
        assert(all.skip(0) =~= all);
        r
    }

    /// The entries the store holds, in order, one per key; they denote its contents.
    pub fn entries(&self) -> (r: &Vec<(K, V)>)
        ensures
            entries_map(r@) == self@,
            distinct_keys(r@),
    {
        proof {
            use_type_invariant(self);
        }
        &self.entries
    }

    fn find(&self, k: &K) -> (r: Option<usize>)
        ensures
            r matches Some(i) ==> is_first_match(self.entries@, k@, i as int),
            r is None ==> forall|j: int| 0 <= j < self.entries@.len() ==> self.entries@[j].0@ != k@,
    {
        let n = self.entries.len();
        for i in 0..n
            invariant
                n == self.entries@.len(),
                forall|j: int| 0 <= j < i ==> self.entries@[j].0@ != k@,
        {
            if self.entries[i].0.same_key(k) {
                return Some(i);
            }
        }
        None
    }

    /// Whether the store holds a value for `k`.
    pub fn contains(&self, k: &K) -> (r: bool)
        ensures
            r == self@.contains_key(k@),
    {
        match self.find(k) {
            Some(i) => {
                proof {
                    lemma_first_match_value(self.entries@, k@, i as int);
                }
                true
            },
            None => {
                proof {
                    lemma_no_match(self.entries@, k@);
                }
                false
            },
        }
    }

    /// The value stored for `k`.
    pub fn get(&self, k: &K) -> (r: Option<&V>)
        ensures
            r is Some == self@.contains_key(k@),
            r matches Some(v) ==> v@ == self@[k@],
    {
        match self.find(k) {
            Some(i) => {
                proof {
                    lemma_first_match_value(self.entries@, k@, i as int);
                }
                Some(&self.entries[i].1)
            },
            None => {
                proof {
                    lemma_no_match(self.entries@, k@);
                }
                None
            },
        }
    }

    /// Stores `v` for `k`, replacing what was stored for `k`.
    pub fn set(&mut self, k: K, v: V)
        ensures
            final(self)@ == old(self)@.insert(k@, v@),
    {
        proof {
            use_type_invariant(&*self);
        }
        let ghost s = self.entries@;
        let found = self.find(&k);
        let mut es: Vec<(K, V)> = Vec::new();
        std::mem::swap(&mut es, &mut self.entries);
        match found {
            Some(i) => {
                proof {
                    lemma_update_first_match(s, k@, i as int, (k, v));
                    assert(distinct_keys(s.update(i as int, (k, v))));
                }
                es.set(i, (k, v));
            },
            None => {
                proof {
                    lemma_no_match(s, k@);
                    lemma_push(s, (k, v));
                    assert(distinct_keys(s.push((k, v))));
                }
                es.push((k, v));
            },
        }
        self.entries = es;
    }

    /// Removes what is stored for `k`.
    pub fn remove(&mut self, k: &K)
        ensures
            final(self)@ == old(self)@.remove(k@),
    {
        let ghost orig = self@;
        loop
            invariant_except_break
                self@.remove(k@) == orig.remove(k@),
            ensures
                self@ == orig.remove(k@),
            decreases self.entries@.len(),
        {
            proof {
                use_type_invariant(&*self);
            }
            match self.find(k) {
                Some(i) => {
                    proof {
                        lemma_remove_first_match(self.entries@, k@, i as int);
                        let s = self.entries@;
                        let t = s.remove(i as int);
                        assert forall|a: int, b: int| 0 <= a < b < t.len() implies t[a].0@ != t[b].0@ by {
                            let a2 = if a < i { a } else { a + 1 };
                            let b2 = if b < i { b } else { b + 1 };
                            assert(t[a] == s[a2]);
                            assert(t[b] == s[b2]);
                        }
                    }
                    let mut es: Vec<(K, V)> = Vec::new();
                    std::mem::swap(&mut es, &mut self.entries);
                    es.remove(i);
                    self.entries = es;
                },
                None => {
                    proof {
                        lemma_no_match(self.entries@, k@);
                        assert(self@.remove(k@) =~= self@);
                        assert(self@ == orig.remove(k@));
                    }
                    break;
                },
            }
        }
    }
}

} // verus!

verus! {

impl StoreKey for (u64, u32) {
    fn same_key(&self, other: &(u64, u32)) -> (r: bool) {
        self.0 == other.0 && self.1 == other.1
    }
}

/// A copy of a byte string.
pub fn copy_bytes(v: &Vec<u8>) -> (r: Vec<u8>)
    ensures
        r@ == v@,
{
    let mut r: Vec<u8> = Vec::new();
    for i in 0..v.len()
        invariant
            r@ == v@.take(i as int),
    {
        r.push(v[i]);
        assert(r@ =~= v@.take(i + 1));
    }
    assert(v@.take(v@.len() as int) =~= v@);
    r
}

/// A copy of a list of identifiers.
pub fn copy_ids(v: &Vec<u64>) -> (r: Vec<u64>)
    ensures
        r@ == v@,
{
    let mut r: Vec<u64> = Vec::new();
    for i in 0..v.len()
        invariant
            r@ == v@.take(i as int),
    {
        r.push(v[i]);
        assert(r@ =~= v@.take(i + 1));
    }
    assert(v@.take(v@.len() as int) =~= v@);
    r
}

} // verus!
