//! A map from string keys that keeps its entries in key order, so that
//! walking it is deterministic whatever order the entries were inserted in.
use vstd::prelude::*;
use crate::text::{key_less, str_less, lemma_key_less_asymmetric, lemma_key_less_irreflexive,
    lemma_key_less_total, lemma_key_less_transitive};

verus! {

/// Keys strictly increasing in key order (hence unique).
pub open spec fn keys_sorted<W>(s: Seq<(Seq<char>, W)>) -> bool {
    forall|i: int, j: int| 0 <= i < j < s.len() ==> #[trigger] key_less(s[i].0, s[j].0)
}

/// The key/value mapping that an entry sequence holds; a later entry wins.
pub open spec fn entries_map<W>(s: Seq<(Seq<char>, W)>) -> Map<Seq<char>, W>
    decreases s.len(),
{
    if s.len() == 0 {
        Map::empty()
    } else {
        entries_map(s.drop_last()).insert(s.last().0, s.last().1)
    }
}

pub proof fn lemma_entries_map_dom<W>(s: Seq<(Seq<char>, W)>, k: Seq<char>)
    ensures
        entries_map(s).contains_key(k) <==> exists|i: int| 0 <= i < s.len() && s[i].0 == k,
    decreases s.len(),
{
    if s.len() > 0 {
        lemma_entries_map_dom(s.drop_last(), k);
        if entries_map(s.drop_last()).contains_key(k) {
            let i = choose|i: int| 0 <= i < s.len() - 1 && s.drop_last()[i].0 == k;
            assert(s[i].0 == k);
        }
        if exists|i: int| 0 <= i < s.len() && s[i].0 == k {
            let i = choose|i: int| 0 <= i < s.len() && s[i].0 == k;
            if i < s.len() - 1 {
                assert(s.drop_last()[i].0 == k);
            }
        }
    }
}

pub proof fn lemma_entries_map_value<W>(s: Seq<(Seq<char>, W)>, i: int)
    requires
        keys_sorted(s),
        0 <= i < s.len(),
    ensures
        entries_map(s).contains_key(s[i].0),
        entries_map(s)[s[i].0] == s[i].1,
    decreases s.len(),
{
    if i < s.len() - 1 {
        assert(keys_sorted(s.drop_last()));
        lemma_entries_map_value(s.drop_last(), i);
        assert(key_less(s[i].0, s.last().0));
        lemma_key_less_irreflexive(s[i].0);
    }
}

/// A sorted entry sequence is the only one that holds its mapping.
pub proof fn lemma_entries_map_is<W>(s: Seq<(Seq<char>, W)>, m: Map<Seq<char>, W>)
    requires
        keys_sorted(s),
        forall|i: int| 0 <= i < s.len() ==> m.contains_key(#[trigger] s[i].0) && m[s[i].0] == s[i].1,
        forall|k: Seq<char>| #[trigger] m.contains_key(k) ==> exists|i: int| 0 <= i < s.len() && s[i].0 == k,
    ensures
        entries_map(s) == m,
{
    assert forall|k: Seq<char>| #[trigger] entries_map(s).contains_key(k) == m.contains_key(k) by {
        lemma_entries_map_dom(s, k);
    }
    assert forall|k: Seq<char>| #[trigger] entries_map(s).contains_key(k) implies entries_map(s)[k] == m[k] by {
        lemma_entries_map_dom(s, k);
        let i = choose|i: int| 0 <= i < s.len() && s[i].0 == k;
        lemma_entries_map_value(s, i);
    }
    assert(entries_map(s) =~= m);
}

/// Two sorted entry sequences that hold the same mapping are the same sequence.
pub proof fn lemma_sorted_entries_unique<W>(a: Seq<(Seq<char>, W)>, b: Seq<(Seq<char>, W)>)
    requires
        keys_sorted(a),
        keys_sorted(b),
        entries_map(a) == entries_map(b),
    ensures
        a == b,
    decreases a.len(),
{
    if a.len() == 0 {
        if b.len() > 0 {
            lemma_entries_map_value(b, 0);
        }
        assert(a =~= b);
    } else if b.len() == 0 {
        lemma_entries_map_value(a, 0);
    } else {
        let ka = a.last().0;
        let kb = b.last().0;
        lemma_entries_map_value(a, a.len() - 1);
        lemma_entries_map_value(b, b.len() - 1);
        lemma_entries_map_dom(a, kb);
        lemma_entries_map_dom(b, ka);
        let i = choose|i: int| 0 <= i < a.len() && a[i].0 == kb;
        let j = choose|j: int| 0 <= j < b.len() && b[j].0 == ka;
        if ka != kb {
            assert(i < a.len() - 1);
            assert(j < b.len() - 1);
            assert(key_less(kb, ka));
            assert(key_less(ka, kb));
            lemma_key_less_asymmetric(ka, kb);
        }
        assert(a.last() == b.last());
        lemma_drop_last_map(a);
        lemma_drop_last_map(b);
        assert(keys_sorted(a.drop_last()));
        assert(keys_sorted(b.drop_last()));
        lemma_sorted_entries_unique(a.drop_last(), b.drop_last());
        assert(a =~= a.drop_last().push(a.last()));
        assert(b =~= b.drop_last().push(b.last()));
    }
}

proof fn lemma_drop_last_map<W>(s: Seq<(Seq<char>, W)>)
    requires
        keys_sorted(s),
        s.len() > 0,
    ensures
        entries_map(s.drop_last()) == entries_map(s).remove(s.last().0),
{
    let k = s.last().0;
    lemma_entries_map_dom(s.drop_last(), k);
    if entries_map(s.drop_last()).contains_key(k) {
        let i = choose|i: int| 0 <= i < s.len() - 1 && s.drop_last()[i].0 == k;
        assert(key_less(s[i].0, k));
        lemma_key_less_irreflexive(k);
    }
    assert(entries_map(s.drop_last()) =~= entries_map(s).remove(k));
}

/// A map from `String` keys to values of type `V`, kept in key order.
pub struct SortedMap<V> {
    entries: Vec<(String, V)>,
}

impl<V> SortedMap<V> {
    #[verifier::type_invariant]
    spec fn keys_increase(&self) -> bool {
        forall|i: int, j: int|
            0 <= i < j < self.entries@.len() ==> #[trigger] key_less(self.entries@[i].0@, self.entries@[j].0@)
    }
}

impl<V: View> View for SortedMap<V> {
    type V = Seq<(Seq<char>, V::V)>;

    closed spec fn view(&self) -> Seq<(Seq<char>, V::V)> {
        self.entries@.map_values(|e: (String, V)| (e.0@, e.1@))
    }
}

impl<V: View> SortedMap<V> {
    /// Entries are in strictly increasing key order.
    pub open spec fn wf(&self) -> bool {
        keys_sorted(self@)
    }

    /// The mapping this map holds.
    pub open spec fn contents(&self) -> Map<Seq<char>, V::V> {
        entries_map(self@)
    }

    /// An empty map.
    pub fn new() -> (r: Self)
        ensures
            r.wf(),
            r@ == Seq::<(Seq<char>, V::V)>::empty(),
    {
        let r = SortedMap { entries: Vec::new() };
        assert(r@ =~= Seq::<(Seq<char>, V::V)>::empty());
        r
    }

    /// Number of entries.
    pub fn len(&self) -> (r: usize)
        ensures
            r == self@.len(),
    {
        self.entries.len()
    }

    /// Whether the map holds no entry.
    pub fn is_empty(&self) -> (r: bool)
        ensures
            r == (self@.len() == 0),
    {
        self.entries.len() == 0
    }

    /// The entries, in key order.
    pub fn entries(&self) -> (r: &Vec<(String, V)>)
        ensures
            r@.map_values(|e: (String, V)| (e.0@, e.1@)) == self@,
            self.wf(),
    {
        proof {
            use_type_invariant(self);
            assert forall|a: int, b: int| 0 <= a < b < self@.len() implies #[trigger] key_less(self@[a].0, self@[b].0) by {
                assert(key_less(self.entries@[a].0@, self.entries@[b].0@));
            }
        }
        &self.entries
    }

    /// Sets the value under `key`, replacing any earlier value.
    pub fn insert(&mut self, key: String, value: V)
        ensures
            final(self).wf(),
            final(self).contents() == old(self).contents().insert(key@, value@),
    {
        proof {
            use_type_invariant(&*self);
            assert forall|a: int, b: int| 0 <= a < b < self@.len() implies #[trigger] key_less(self@[a].0, self@[b].0) by {
                assert(key_less(self.entries@[a].0@, self.entries@[b].0@));
            }
        }
        let ghost s = self@;
        let mut taken = SortedMap { entries: Vec::new() };
        std::mem::swap(self, &mut taken);
        let mut entries = taken.entries;
        assert(entries@.map_values(|e: (String, V)| (e.0@, e.1@)) == s);
        let mut i: usize = 0;
        while i < entries.len() && str_less(entries[i].0.as_str(), key.as_str())
            invariant
                entries@.map_values(|e: (String, V)| (e.0@, e.1@)) == s,
                keys_sorted(s),
                i <= s.len(),
                forall|j: int| 0 <= j < i ==> key_less(#[trigger] s[j].0, key@),
            decreases entries.len() - i,
        {
            i = i + 1;
        }
        let ghost m = entries_map(s).insert(key@, value@);
        let ghost kv = (key@, value@);
        let found = i < entries.len() && entries[i].0 == key;
        proof {
            if i < s.len() && !found {
                lemma_key_less_total(s[i as int].0, key@);
            }
        }
        if found {
            entries.set(i, (key, value));
            assert(entries@.map_values(|e: (String, V)| (e.0@, e.1@)) =~= s.update(i as int, kv));
        } else {
            entries.insert(i, (key, value));
            assert(entries@.map_values(|e: (String, V)| (e.0@, e.1@)) =~= s.insert(i as int, kv));
        }
        proof {
            let t = entries@.map_values(|e: (String, V)| (e.0@, e.1@));
            assert forall|a: int, b: int| 0 <= a < b < t.len() implies #[trigger] key_less(t[a].0, t[b].0) by {
                if found {
                    assert(t[a].0 == s[a].0 && t[b].0 == s[b].0);
                } else if a < i && b < i {
                    assert(t[a] == s[a] && t[b] == s[b]);
                } else if a > i {
                    assert(t[a] == s[a - 1] && t[b] == s[b - 1]);
                } else if a == i {
                    assert(t[b] == s[b - 1]);
                } else {
                    assert(t[a] == s[a]);
                }
                if !found && i < s.len() {
                    assert(key_less(key@, s[i as int].0));
                    if b > i + 1 {
                        assert(key_less(s[i as int].0, t[b].0));
                        lemma_key_less_transitive(key@, s[i as int].0, t[b].0);
                    }
                    if a < i && b > i {
                        lemma_key_less_transitive(t[a].0, key@, t[b].0);
                    }
                }
            }
            assert forall|j: int| 0 <= j < t.len() implies m.contains_key(#[trigger] t[j].0) && m[t[j].0] == t[j].1 by {
                if t[j].0 == key@ && j != i {
                    if j < i {
                        assert(key_less(t[j].0, t[i as int].0));
                    } else {
                        assert(key_less(t[i as int].0, t[j].0));
                    }
                    lemma_key_less_irreflexive(key@);
                }
                if t[j].0 != key@ {
                    let sj = if !found && j > i { j - 1 } else { j };
                    assert(t[j] == s[sj]);
                    lemma_entries_map_value(s, sj);
                }
            }
            assert forall|k: Seq<char>| #[trigger] m.contains_key(k) implies exists|j: int| 0 <= j < t.len() && t[j].0 == k by {
                if k == key@ {
                    assert(t[i as int].0 == k);
                } else {
                    lemma_entries_map_dom(s, k);
                    let sj = choose|sj: int| 0 <= sj < s.len() && s[sj].0 == k;
                    let j = if !found && sj >= i { sj + 1 } else { sj };
                    assert(t[j].0 == k);
                }
            }
            lemma_entries_map_is(t, m);
            assert forall|a: int, b: int| 0 <= a < b < entries@.len() implies #[trigger] key_less(entries@[a].0@, entries@[b].0@) by {
                assert(key_less(t[a].0, t[b].0));
            }
        }
        *self = SortedMap { entries };
    }
}

} // verus!
