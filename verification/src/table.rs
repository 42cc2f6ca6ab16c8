//! Association tables: the one map shape every registry of the store uses.
//!
//! A [`Table`] is a vector of key/value entries whose mathematical meaning is
//! given by [`assoc_lookup`], a first-match lookup over the views of the keys.
//! [`Table::upsert`] replaces the first entry holding the key, or appends a
//! fresh entry, so a table never acquires two entries whose keys share a view
//! and behaves exactly like a map from key views to values.

use vstd::prelude::*;

verus! {

/// A key type for an association table: executable equality decides equality
/// of the views.
pub trait TableKey: View + Sized {
    fn key_eq(&self, other: &Self) -> (r: bool)
        ensures
            r == (self@ == other@),
    ;
}

impl TableKey for String {
    fn key_eq(&self, other: &Self) -> (r: bool) {
        self.eq(other)
    }
}

/// First-match lookup: the value of the first entry whose key view is `key`.
pub open spec fn assoc_lookup<K: View, V>(s: Seq<(K, V)>, key: K::V) -> Option<V>
    decreases s.len(),
{
    if s.len() <= 0 {
        None
    } else if s[0].0@ == key {
        Some(s[0].1)
    } else {
        assoc_lookup(s.subrange(1, s.len() as int), key)
    }
}

/// A lookup stops at position `i` when `i` holds the key and no earlier
/// position does.
proof fn lemma_lookup_at_first_match<K: View, V>(s: Seq<(K, V)>, key: K::V, i: int)
    requires
        0 <= i < s.len(),
        s[i].0@ == key,
        forall|j: int| 0 <= j < i ==> s[j].0@ != key,
    ensures
        assoc_lookup(s, key) == Some(s[i].1),
    decreases i,
{
    if i > 0 {
        let t = s.subrange(1, s.len() as int);
        assert(t[i - 1] == s[i]);
        assert(forall|j: int| 0 <= j < i - 1 ==> t[j] == s[j + 1]);
        lemma_lookup_at_first_match(t, key, i - 1);
    }
}

/// A key held by no entry is not found.
proof fn lemma_lookup_all_mismatch<K: View, V>(s: Seq<(K, V)>, key: K::V)
    requires
        forall|j: int| 0 <= j < s.len() ==> s[j].0@ != key,
    ensures
        assoc_lookup(s, key) is None,
    decreases s.len(),
{
    if s.len() > 0 {
        let t = s.subrange(1, s.len() as int);
        assert(forall|j: int| 0 <= j < t.len() ==> t[j] == s[j + 1]);
        lemma_lookup_all_mismatch(t, key);
    }
}

/// Replacing the first entry that holds a key rebinds that key and leaves
/// every other key's binding alone.
proof fn lemma_lookup_update<K: View, V>(s: Seq<(K, V)>, i: int, e: (K, V), k2: K::V)
    requires
        0 <= i < s.len(),
        s[i].0@ == e.0@,
        forall|j: int| 0 <= j < i ==> s[j].0@ != e.0@,
    ensures
        assoc_lookup(s.update(i, e), k2) == (if k2 == e.0@ {
            Some(e.1)
        } else {
            assoc_lookup(s, k2)
        }),
    decreases i,
{
    let u = s.update(i, e);
    if i == 0 {
        if k2 != e.0@ {
            assert(u.subrange(1, u.len() as int) =~= s.subrange(1, s.len() as int));
        }
    } else {
        assert(u[0] == s[0]);
        if k2 != s[0].0@ {
            let t = s.subrange(1, s.len() as int);
            assert(t[i - 1] == s[i]);
            assert(forall|j: int| 0 <= j < i - 1 ==> t[j] == s[j + 1]);
            lemma_lookup_update(t, i - 1, e, k2);
            assert(u.subrange(1, u.len() as int) =~= t.update(i - 1, e));
        }
    }
}

/// Appending an entry under an absent key binds that key and leaves every
/// other key's binding alone.
proof fn lemma_lookup_push<K: View, V>(s: Seq<(K, V)>, e: (K, V), k2: K::V)
    requires
        forall|j: int| 0 <= j < s.len() ==> s[j].0@ != e.0@,
    ensures
        assoc_lookup(s.push(e), k2) == (if k2 == e.0@ {
            Some(e.1)
        } else {
            assoc_lookup(s, k2)
        }),
    decreases s.len(),
{
    let p = s.push(e);
    if s.len() == 0 {
        assert(p[0] == e);
        if k2 != e.0@ {
            assert(p.subrange(1, p.len() as int) =~= Seq::<(K, V)>::empty());
            assert(assoc_lookup(Seq::<(K, V)>::empty(), k2) is None);
        }
    } else {
        assert(p[0] == s[0]);
        let t = s.subrange(1, s.len() as int);
        assert(forall|j: int| 0 <= j < t.len() ==> t[j] == s[j + 1]);
        assert(forall|j: int| 0 <= j < t.len() ==> t[j].0@ != e.0@);
        if k2 == s[0].0@ {
            assert(k2 != e.0@);
            assert(assoc_lookup(p, k2) == Some(s[0].1));
            assert(assoc_lookup(s, k2) == Some(s[0].1));
        } else {
            lemma_lookup_push(t, e, k2);
            assert(p.subrange(1, p.len() as int) =~= t.push(e));
            assert(assoc_lookup(p, k2) == assoc_lookup(t.push(e), k2));
            assert(assoc_lookup(s, k2) == assoc_lookup(t, k2));
        }
    }
}

/// A value whose duplicate is equal to the original, so that reading a table
/// can hand out copies without losing any specified fact.
pub trait DupValue: Sized {
    fn dup(&self) -> (r: Self)
        ensures
            r == *self,
    ;
}

impl DupValue for String {
    fn dup(&self) -> (r: Self) {
        self.clone()
    }
}

/// Duplicate a vector element by element.
pub fn dup_vec<T: DupValue>(v: &Vec<T>) -> (r: Vec<T>)
    ensures
        r@ == v@,
{
    let n = v.len();
    let mut r: Vec<T> = Vec::new();
    let mut i: usize = 0;
    while i < n
        invariant
            i <= n,
            n == v@.len(),
            r@ == v@.subrange(0, i as int),
        decreases n - i,
    {
        r.push(v[i].dup());
        proof {
            assert(v@.subrange(0, i as int).push(v@[i as int]) =~= v@.subrange(0, i + 1 as int));
        }
        i = i + 1;
    }
    proof {
        assert(v@.subrange(0, n as int) =~= v@);
    }
    r
}

/// Pushing onto a vector pushes onto its deep view.
pub proof fn lemma_deep_view_push<T: DeepView>(a: Vec<T>, b: Vec<T>, x: T)
    requires
        b@ == a@.push(x),
    ensures
        b.deep_view() == a.deep_view().push(x.deep_view()),
{
    assert(b.deep_view() =~= a.deep_view().push(x.deep_view()));
}

/// Vectors holding equal elements have equal deep views.
pub proof fn lemma_deep_view_congruent<T: DeepView>(a: Vec<T>, b: Vec<T>)
    requires
        a@ == b@,
    ensures
        a.deep_view() == b.deep_view(),
{
    assert(a.deep_view() =~= b.deep_view());
}

/// A map from keys to values, stored as entries in insertion order and read
/// by first-match lookup on the key views.
pub struct Table<K, V> {
    pub entries: Vec<(K, V)>,
}

impl<K: TableKey, V> Table<K, V> {
    /// The binding of `key`, as a map would give it.
    pub open spec fn map_get(self, key: K::V) -> Option<V> {
        assoc_lookup(self.entries@, key)
    }

    /// Whether some entry holds `key`.
    pub open spec fn contains_key(self, key: K::V) -> bool {
        self.map_get(key) is Some
    }

    /// An empty table: every key is unbound.
    pub fn new() -> (r: Self)
        ensures
            forall|k: K::V| #[trigger] r.map_get(k) is None,
    {
        let r = Table { entries: Vec::new() };
        proof {
            assert forall|k: K::V| #[trigger] r.map_get(k) is None by {
                lemma_lookup_all_mismatch(r.entries@, k);
            }
        }
        r
    }

    /// The position of the first entry holding `key`, if any.
    fn find_index(&self, key: &K) -> (r: Option<usize>)
        ensures
            match r {
                Some(i) => {
                    &&& i < self.entries@.len()
                    &&& self.entries@[i as int].0@ == key@
                    &&& forall|j: int| 0 <= j < i ==> self.entries@[j].0@ != key@
                },
                None => forall|j: int| 0 <= j < self.entries@.len() ==> self.entries@[j].0@ != key@,
            },
    {
        let n = self.entries.len();
        let mut i: usize = 0;
        while i < n
            invariant
                i <= n,
                n == self.entries@.len(),
                forall|j: int| 0 <= j < i ==> self.entries@[j].0@ != key@,
            decreases n - i,
        {
            if self.entries[i].0.key_eq(key) {
                return Some(i);
            }
            i = i + 1;
        }
        None
    }

    /// Borrow the value bound to `key`.
    pub fn get<'a>(&'a self, key: &K) -> (r: Option<&'a V>)
        ensures
            match r {
                Some(v) => self.map_get(key@) == Some(*v),
                None => self.map_get(key@) is None,
            },
    {
        match self.find_index(key) {
            Some(i) => {
                proof {
                    lemma_lookup_at_first_match(self.entries@, key@, i as int);
                }
                Some(&self.entries[i].1)
            },
            None => {
                proof {
                    lemma_lookup_all_mismatch(self.entries@, key@);
                }
                None
            },
        }
    }

    /// Whether the table binds `key`.
    pub fn contains(&self, key: &K) -> (r: bool)
        ensures
            r == self.contains_key(key@),
    {
        match self.get(key) {
            Some(_) => true,
            None => false,
        }
    }

    /// Bind `key` to `value`, replacing any earlier binding; no other key's
    /// binding changes.
    pub fn upsert(&mut self, key: K, value: V)
        ensures
            final(self).map_get(key@) == Some(value),
            forall|k2: K::V| k2 != key@ ==> #[trigger] final(self).map_get(k2) == old(
                self,
            ).map_get(k2),
    {
        let ghost s0 = self.entries@;
        let ghost kv = (key, value);
        match self.find_index(&key) {
            Some(i) => {
                self.entries[i] = (key, value);
                proof {
                    assert(self.entries@ == s0.update(i as int, kv));
                    assert forall|k2: K::V| true implies #[trigger] assoc_lookup(
                        self.entries@,
                        k2,
                    ) == (if k2 == kv.0@ {
                        Some(kv.1)
                    } else {
                        assoc_lookup(s0, k2)
                    }) by {
                        lemma_lookup_update(s0, i as int, kv, k2);
                    }
                }
            },
            None => {
                self.entries.push((key, value));
                proof {
                    assert(self.entries@ == s0.push(kv));
                    assert forall|k2: K::V| true implies #[trigger] assoc_lookup(
                        self.entries@,
                        k2,
                    ) == (if k2 == kv.0@ {
                        Some(kv.1)
                    } else {
                        assoc_lookup(s0, k2)
                    }) by {
                        lemma_lookup_push(s0, kv, k2);
                    }
                }
            },
        }
    }
}

} // verus!
