use vstd::prelude::*;

use crate::text::text_eq;

verus! {

/// The map that parallel sequences of keys and values stand for: a later entry for a key
/// overrides an earlier one.
pub open spec fn entries_map<V>(ks: Seq<String>, vs: Seq<V>) -> Map<Seq<char>, V>
    decreases ks.len(),
{
    if ks.len() == 0 {
        Map::empty()
    } else {
        entries_map(ks.drop_last(), vs.drop_last()).insert(ks.last()@, vs.last())
    }
}

/// No two keys are equal.
pub open spec fn keys_distinct(ks: Seq<String>) -> bool {
    forall|i: int, j: int|
        0 <= i < ks.len() && 0 <= j < ks.len() && i != j ==> #[trigger] ks[i]@ != #[trigger] ks[j]@
}

proof fn lemma_distinct_prefix(ks: Seq<String>)
    requires
        keys_distinct(ks),
        ks.len() > 0,
    ensures
        keys_distinct(ks.drop_last()),
{
    let p = ks.drop_last();
    assert forall|a: int, b: int|
        0 <= a < p.len() && 0 <= b < p.len() && a != b implies #[trigger] p[a]@ != #[trigger] p[b]@ by {
        assert(p[a] == ks[a] && p[b] == ks[b]);
    }
}

proof fn lemma_entries_dom<V>(ks: Seq<String>, vs: Seq<V>)
    requires
        ks.len() == vs.len(),
    ensures
        entries_map(ks, vs).dom().finite(),
        forall|k: Seq<char>|
            #[trigger] entries_map(ks, vs).dom().contains(k) <==> exists|i: int|
                0 <= i < ks.len() && ks[i]@ == k,
    decreases ks.len(),
{
    if ks.len() > 0 {
        let p = ks.drop_last();
        lemma_entries_dom(p, vs.drop_last());
        assert forall|k: Seq<char>|
            #[trigger] entries_map(ks, vs).dom().contains(k) <==> exists|i: int|
                0 <= i < ks.len() && ks[i]@ == k by {
            if entries_map(ks, vs).dom().contains(k) {
                if k == ks.last()@ {
                    assert(ks[ks.len() - 1]@ == k);
                } else {
                    let i = choose|i: int| 0 <= i < p.len() && p[i]@ == k;
                    assert(ks[i] == p[i]);
                }
            }
            if exists|i: int| 0 <= i < ks.len() && ks[i]@ == k {
                let i = choose|i: int| 0 <= i < ks.len() && ks[i]@ == k;
                if i < ks.len() - 1 {
                    assert(p[i] == ks[i]);
                }
            }
        }
    }
}

proof fn lemma_entries_value<V>(ks: Seq<String>, vs: Seq<V>, i: int)
    requires
        ks.len() == vs.len(),
        keys_distinct(ks),
        0 <= i < ks.len(),
    ensures
        entries_map(ks, vs).dom().contains(ks[i]@),
        entries_map(ks, vs)[ks[i]@] == vs[i],
    decreases ks.len(),
{
    if i < ks.len() - 1 {
        let p = ks.drop_last();
        let q = vs.drop_last();
        assert(p[i] == ks[i] && q[i] == vs[i]);
        lemma_distinct_prefix(ks);
        lemma_entries_value(p, q, i);
        assert(ks[i]@ != ks[ks.len() - 1]@);
    }
}

proof fn lemma_entries_len<V>(ks: Seq<String>, vs: Seq<V>)
    requires
        ks.len() == vs.len(),
        keys_distinct(ks),
    ensures
        entries_map(ks, vs).len() == ks.len(),
    decreases ks.len(),
{
    lemma_entries_dom(ks, vs);
    if ks.len() > 0 {
        let p = ks.drop_last();
        let q = vs.drop_last();
        lemma_distinct_prefix(ks);
        lemma_entries_len(p, q);
        lemma_entries_dom(p, q);
        if entries_map(p, q).dom().contains(ks.last()@) {
            let i = choose|i: int| 0 <= i < p.len() && p[i]@ == ks.last()@;
            assert(ks[i] == p[i]);
            assert(ks[i]@ == ks[ks.len() - 1]@);
        }
    }
}

/// Two descriptions of a map agree when they hold the same keys and the same value for each.
proof fn lemma_entries_ext<V>(ks: Seq<String>, vs: Seq<V>, m: Map<Seq<char>, V>)
    requires
        ks.len() == vs.len(),
        keys_distinct(ks),
        forall|k: Seq<char>|
            #[trigger] m.dom().contains(k) <==> exists|i: int| 0 <= i < ks.len() && ks[i]@ == k,
        forall|i: int| 0 <= i < ks.len() ==> #[trigger] m[ks[i]@] == vs[i],
    ensures
        entries_map(ks, vs) == m,
{
    lemma_entries_dom(ks, vs);
    assert forall|k: Seq<char>| #[trigger] entries_map(ks, vs).dom().contains(k) implies entries_map(
        ks,
        vs,
    )[k] == m[k] by {
        let i = choose|i: int| 0 <= i < ks.len() && ks[i]@ == k;
        lemma_entries_value(ks, vs, i);
    }
    assert(entries_map(ks, vs) =~= m);
}

/// A map from text keys to values, kept as a list of distinct keys beside the list of
/// their values.
#[derive(Debug)]
pub struct IdMap<V> {
    table: Table<V>,
}

#[derive(Debug)]
struct Table<V> {
    keys: Vec<String>,
    values: Vec<V>,
}

impl<V> View for IdMap<V> {
    type V = Map<Seq<char>, V>;

    closed spec fn view(&self) -> Map<Seq<char>, V> {
        entries_map(self.table.keys@, self.table.values@)
    }
}

impl<V> IdMap<V> {
    #[verifier::type_invariant]
    spec fn well_formed(self) -> bool {
        &&& self.table.keys@.len() == self.table.values@.len()
        &&& keys_distinct(self.table.keys@)
    }

    /// An empty map.
    pub fn new() -> (m: Self)
        ensures
            m@ == Map::<Seq<char>, V>::empty(),
    {
        IdMap { table: Table { keys: Vec::new(), values: Vec::new() } }
    }

    /// The number of keys.
    pub fn len(&self) -> (n: usize)
        ensures
            n == self@.len(),
            self@.dom().finite(),
    {
        proof {
            use_type_invariant(self);
            lemma_entries_len(self.table.keys@, self.table.values@);
            lemma_entries_dom(self.table.keys@, self.table.values@);
        }
        self.table.keys.len()
    }

    fn find(&self, key: &str) -> (r: Option<usize>)
        ensures
            match r {
                Some(i) => i < self.table.keys@.len() && self.table.keys@[i as int]@ == key@,
                None => forall|i: int|
                    0 <= i < self.table.keys@.len() ==> #[trigger] self.table.keys@[i]@ != key@,
            },
    {
        let n = self.table.keys.len();
        let mut i: usize = 0;
        while i < n
            invariant
                n == self.table.keys@.len(),
                i <= n,
                forall|j: int| 0 <= j < i ==> #[trigger] self.table.keys@[j]@ != key@,
            decreases n - i,
        {
            if text_eq(self.table.keys[i].as_str(), key) {
                return Some(i);
            }
            i = i + 1;
        }
        None
    }

    /// Whether the key is present.
    pub fn contains_key(&self, key: &str) -> (r: bool)
        ensures
            r == self@.contains_key(key@),
    {
        proof {
            use_type_invariant(self);
            lemma_entries_dom(self.table.keys@, self.table.values@);
        }
        self.find(key).is_some()
    }

    /// The value stored under `key`, if any.
    pub fn get(&self, key: &str) -> (r: Option<&V>)
        ensures
            match r {
                Some(v) => self@.contains_key(key@) && *v == self@[key@],
                None => !self@.contains_key(key@),
            },
    {
        proof {
            use_type_invariant(self);
            lemma_entries_dom(self.table.keys@, self.table.values@);
        }
        match self.find(key) {
            Some(i) => {
                proof {
                    lemma_entries_value(self.table.keys@, self.table.values@, i as int);
                }
                Some(&self.table.values[i])
            },
            None => None,
        }
    }

    fn value_mut(&mut self, i: usize) -> (v: &mut V)
        requires
            i < old(self).table.keys@.len(),
        ensures
            *v == old(self).table.values@[i as int],
            final(self).table.keys@ == old(self).table.keys@,
            final(self).table.values@ == old(self).table.values@.update(i as int, *final(v)),
        no_unwind
    {
        proof {
            use_type_invariant(&*self);
        }
        &mut self.table.values[i]
    }

    /// The value stored under `key`, for changing it in place.
    pub fn get_mut(&mut self, key: &str) -> (r: Option<&mut V>)
        ensures
            match r {
                Some(v) => old(self)@.contains_key(key@) && *v == old(self)@[key@]
                    && final(self)@ == old(self)@.insert(key@, *final(v)),
                None => !old(self)@.contains_key(key@) && final(self)@ == old(self)@,
            },
    {
        proof {
            use_type_invariant(&*self);
            lemma_entries_dom(self.table.keys@, self.table.values@);
        }
        let ghost ks = self.table.keys@;
        let ghost vs = self.table.values@;
        match self.find(key) {
            Some(i) => {
                proof {
                    lemma_entries_value(ks, vs, i as int);
                }
                let v = self.value_mut(i);
                proof {
                    let nv = vs.update(i as int, *final(v));
                    let m = entries_map(ks, vs).insert(key@, *final(v));
                    assert forall|k: Seq<char>| #[trigger] m.dom().contains(k) <==> exists|j: int|
                        0 <= j < ks.len() && ks[j]@ == k by {}
                    assert forall|j: int| 0 <= j < ks.len() implies #[trigger] m[ks[j]@] == nv[j] by {
                        if j != i {
                            lemma_entries_value(ks, vs, j);
                        }
                    }
                    lemma_entries_ext(ks, nv, m);
                }
                Some(v)
            },
            None => None,
        }
    }

    /// Stores `value` under `key`, replacing what was stored there.
    pub fn insert(&mut self, key: String, value: V)
        ensures
            old(self)@.dom().finite(),
            final(self)@ == old(self)@.insert(key@, value),
    {
        proof {
            use_type_invariant(&*self);
            lemma_entries_dom(self.table.keys@, self.table.values@);
        }
        let ghost ks = self.table.keys@;
        let ghost vs = self.table.values@;
        let ghost k = key@;
        match self.find(key.as_str()) {
            Some(i) => {
                let mut table = Table { keys: Vec::new(), values: Vec::new() };
                std::mem::swap(&mut table, &mut self.table);
                let Table { keys, mut values } = table;
                values.set(i, value);
                proof {
                    let nv = values@;
                    let m = entries_map(ks, vs).insert(k, value);
                    assert forall|kk: Seq<char>| #[trigger] m.dom().contains(kk) <==> exists|j: int|
                        0 <= j < ks.len() && ks[j]@ == kk by {}
                    assert forall|j: int| 0 <= j < ks.len() implies #[trigger] m[ks[j]@] == nv[j] by {
                        if j != i {
                            lemma_entries_value(ks, vs, j);
                        }
                    }
                    lemma_entries_ext(ks, nv, m);
                }
                self.table = Table { keys, values };
            },
            None => {
                let mut table = Table { keys: Vec::new(), values: Vec::new() };
                std::mem::swap(&mut table, &mut self.table);
                let Table { mut keys, mut values } = table;
                keys.push(key);
                values.push(value);
                proof {
                    let s = keys@;
                    assert(s.drop_last() == ks);
                    assert(values@.drop_last() == vs);
                    assert(keys_distinct(s)) by {
                        assert forall|a: int, b: int|
                            0 <= a < s.len() && 0 <= b < s.len() && a != b implies #[trigger] s[a]@
                            != #[trigger] s[b]@ by {
                            if a < ks.len() && b < ks.len() {
                                assert(s[a] == ks[a] && s[b] == ks[b]);
                            } else if a < ks.len() {
                                assert(s[a] == ks[a]);
                            } else {
                                assert(s[b] == ks[b]);
                            }
                        }
                    }
                }
                self.table = Table { keys, values };
            },
        }
    }

    /// Removes the entry for `key`; tells whether there was one.
    pub fn remove(&mut self, key: &str) -> (existed: bool)
        ensures
            old(self)@.dom().finite(),
            existed == old(self)@.contains_key(key@),
            final(self)@ == old(self)@.remove(key@),
    {
        proof {
            use_type_invariant(&*self);
            lemma_entries_dom(self.table.keys@, self.table.values@);
        }
        let ghost ks = self.table.keys@;
        let ghost vs = self.table.values@;
        match self.find(key) {
            Some(i) => {
                let mut table = Table { keys: Vec::new(), values: Vec::new() };
                std::mem::swap(&mut table, &mut self.table);
                let Table { mut keys, mut values } = table;
                keys.remove(i);
                values.remove(i);
                proof {
                    let s = keys@;
                    let t = values@;
                    assert(s == ks.remove(i as int));
                    assert(t == vs.remove(i as int));
                    assert forall|j: int| 0 <= j < s.len() implies #[trigger] s[j] == ks[
                        if j < i { j } else { j + 1 }] && t[j] == vs[if j < i { j } else { j + 1 }] by {}
                    assert(keys_distinct(s)) by {
                        assert forall|a: int, b: int|
                            0 <= a < s.len() && 0 <= b < s.len() && a != b implies #[trigger] s[a]@
                            != #[trigger] s[b]@ by {
                            assert(s[a] == ks[if a < i { a } else { a + 1 }]);
                            assert(s[b] == ks[if b < i { b } else { b + 1 }]);
                        }
                    }
                    let m = entries_map(ks, vs).remove(key@);
                    assert forall|kk: Seq<char>| #[trigger] m.dom().contains(kk) <==> exists|j: int|
                        0 <= j < s.len() && s[j]@ == kk by {
                        if m.dom().contains(kk) {
                            let j = choose|j: int| 0 <= j < ks.len() && ks[j]@ == kk;
                            assert(j != i);
                            let u = if j < i { j } else { j - 1 };
                            assert(s[u] == ks[j]);
                        }
                        if exists|j: int| 0 <= j < s.len() && s[j]@ == kk {
                            let j = choose|j: int| 0 <= j < s.len() && s[j]@ == kk;
                            let o = if j < i { j } else { j + 1 };
                            assert(s[j] == ks[o]);
                            assert(o != i);
                            assert(ks[o]@ != ks[i as int]@);
                        }
                    }
                    assert forall|j: int| 0 <= j < s.len() implies #[trigger] m[s[j]@] == t[j] by {
                        let o = if j < i { j } else { j + 1 };
                        assert(s[j] == ks[o] && t[j] == vs[o]);
                        lemma_entries_value(ks, vs, o);
                        assert(ks[o]@ != ks[i as int]@);
                    }
                    lemma_entries_ext(s, t, m);
                }
                self.table = Table { keys, values };
                true
            },
            None => {
                proof {
                    assert(!entries_map(ks, vs).dom().contains(key@));
                    assert(entries_map(ks, vs).remove(key@) =~= entries_map(ks, vs));
                }
                false
            },
        }
    }

    /// Removes every entry.
    pub fn clear(&mut self)
        ensures
            final(self)@ == Map::<Seq<char>, V>::empty(),
    {
        self.table = Table { keys: Vec::new(), values: Vec::new() };
    }
}

} // verus!
