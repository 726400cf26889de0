//! A table of values keyed by distinct strings: the map the level manifest
//! keeps for its materials, its portals and its fetched assets.
use vstd::prelude::*;

verus! {

/// The map that a list of `(key, value)` pairs denotes when they are inserted
/// in order, a later pair replacing an earlier one with the same key.
pub open spec fn entries_map<V>(s: Seq<(String, V)>) -> Map<Seq<char>, V>
    decreases s.len(),
{
    if s.len() == 0 {
        Map::empty()
    } else {
        entries_map(s.drop_last()).insert(s.last().0@, s.last().1)
    }
}

/// No two pairs share a key.
pub open spec fn keys_unique<V>(s: Seq<(String, V)>) -> bool {
    forall|i: int, j: int|
        0 <= i < s.len() && 0 <= j < s.len() && i != j ==> #[trigger] s[i].0@ != #[trigger] s[j].0@
}

/// Some pair carries the key.
pub open spec fn has_key<V>(s: Seq<(String, V)>, k: Seq<char>) -> bool {
    exists|i: int| 0 <= i < s.len() && #[trigger] s[i].0@ == k
}

/// A key is in the denoted map exactly when some pair carries it; with
/// distinct keys, the map holds the value of that pair.
pub proof fn lemma_entries_map_lookup<V>(s: Seq<(String, V)>, k: Seq<char>)
    ensures
        entries_map(s).dom().contains(k) <==> has_key(s, k),
        keys_unique(s) ==> forall|i: int|
            0 <= i < s.len() && #[trigger] s[i].0@ == k ==> entries_map(s)[k] == s[i].1,
    decreases s.len(),
{
    if s.len() > 0 {
        let p = s.drop_last();
        lemma_entries_map_lookup(p, k);
        if has_key(p, k) {
            let i = choose|i: int| 0 <= i < p.len() && #[trigger] p[i].0@ == k;
            assert(s[i].0@ == k);
        }
        if has_key(s, k) && s.last().0@ != k {
            let i = choose|i: int| 0 <= i < s.len() && #[trigger] s[i].0@ == k;
            assert(p[i].0@ == k);
        }
        if keys_unique(s) {
            assert(keys_unique(p)) by {
                assert forall|i: int, j: int|
                    0 <= i < p.len() && 0 <= j < p.len() && i != j implies #[trigger] p[i].0@
                    != #[trigger] p[j].0@ by {
                    assert(s[i].0@ != s[j].0@);
                }
            }
            assert forall|i: int| 0 <= i < s.len() && #[trigger] s[i].0@ == k implies entries_map(
                s,
            )[k] == s[i].1 by {
                if i < s.len() - 1 {
                    assert(s[s.len() - 1].0@ != s[i].0@);
                    assert(p[i].0@ == k);
                }
            }
        }
    }
}

/// With distinct keys, the map has one key per pair.
pub proof fn lemma_entries_map_len<V>(s: Seq<(String, V)>)
    requires
        keys_unique(s),
    ensures
        entries_map(s).dom().finite(),
        entries_map(s).dom().len() == s.len(),
    decreases s.len(),
{
    if s.len() > 0 {
        let p = s.drop_last();
        assert(keys_unique(p)) by {
            assert forall|i: int, j: int|
                0 <= i < p.len() && 0 <= j < p.len() && i != j implies #[trigger] p[i].0@
                != #[trigger] p[j].0@ by {
                assert(s[i].0@ != s[j].0@);
            }
        }
        lemma_entries_map_len(p);
        lemma_entries_map_lookup(p, s.last().0@);
        if has_key(p, s.last().0@) {
            let i = choose|i: int| 0 <= i < p.len() && #[trigger] p[i].0@ == s.last().0@;
            assert(s[i].0@ != s[s.len() - 1].0@);
        }
    }
}

/// Replacing the value of a pair by one with the same key is a map insert.
proof fn lemma_entries_map_update<V>(s: Seq<(String, V)>, i: int, k: String, v: V)
    requires
        keys_unique(s),
        0 <= i < s.len(),
        s[i].0@ == k@,
    ensures
        keys_unique(s.update(i, (k, v))),
        entries_map(s.update(i, (k, v))) == entries_map(s).insert(k@, v),
{
    let t = s.update(i, (k, v));
    assert(keys_unique(t)) by {
        assert forall|a: int, b: int|
            0 <= a < t.len() && 0 <= b < t.len() && a != b implies #[trigger] t[a].0@
            != #[trigger] t[b].0@ by {
            assert(s[a].0@ != s[b].0@);
        }
    }
    assert forall|key: Seq<char>|
        entries_map(t).dom().contains(key) <==> entries_map(s).insert(k@, v).dom().contains(key) by {
        lemma_entries_map_lookup(s, key);
        lemma_entries_map_lookup(t, key);
        if has_key(s, key) {
            let j = choose|j: int| 0 <= j < s.len() && #[trigger] s[j].0@ == key;
            assert(t[j].0@ == key);
        }
        if has_key(t, key) {
            let j = choose|j: int| 0 <= j < t.len() && #[trigger] t[j].0@ == key;
            assert(s[j].0@ == key);
        }
        if key == k@ {
            assert(t[i].0@ == key);
        }
    }
    assert forall|key: Seq<char>| #[trigger]
        entries_map(t).dom().contains(key) implies entries_map(t)[key] == entries_map(s).insert(
        k@,
        v,
    )[key] by {
        lemma_entries_map_lookup(s, key);
        lemma_entries_map_lookup(t, key);
        let j = choose|j: int| 0 <= j < t.len() && #[trigger] t[j].0@ == key;
        if j != i {
            assert(s[j].0@ == key);
        }
    }
    assert(entries_map(t) =~= entries_map(s).insert(k@, v));
}

/// Position of the pair that carries `key`, if any.
pub fn find_entry<V>(entries: &Vec<(String, V)>, key: &str) -> (r: Option<usize>)
    ensures
        r matches Some(i) ==> i < entries@.len() && entries@[i as int].0@ == key@,
        r is None ==> !has_key(entries@, key@),
{
    let wanted = key.to_owned();
    let mut i: usize = 0;
    while i < entries.len()
        invariant
            i <= entries@.len(),
            wanted@ == key@,
            forall|j: int| 0 <= j < i ==> #[trigger] entries@[j].0@ != key@,
        decreases entries@.len() - i,
    {
        if entries[i].0 == wanted {
            return Some(i);
        }
        i = i + 1;
    }
    None
}

/// A table of values under distinct string keys.
#[derive(Debug)]
pub struct KeyedTable<V> {
    entries: Vec<(String, V)>,
}

impl<V> KeyedTable<V> {
    #[verifier::type_invariant]
    spec fn keys_distinct(self) -> bool {
        keys_unique(self.entries@)
    }

    /// The pairs of the table, in the order in which their keys first came.
    pub closed spec fn pairs(&self) -> Seq<(String, V)> {
        self.entries@
    }

    /// An empty table.
    pub fn new() -> (t: Self)
        ensures
            t@ == Map::<Seq<char>, V>::empty(),
            t.pairs().len() == 0,
    {
        KeyedTable { entries: Vec::new() }
    }

    /// The table that inserting the pairs in order builds: a later pair
    /// replaces the value of an earlier one with the same key.
    pub fn from_pairs(pairs: Vec<(String, V)>) -> (t: Self)
        ensures
            t@ == entries_map(pairs@),
    {
        let ghost all = pairs@;
        assert(all.len() <= usize::MAX) by {
            assert(pairs.len() <= usize::MAX);
        }
        let mut rest = pairs;
        let mut t = KeyedTable::new();
        let mut n: usize = 0;
        while rest.len() > 0
            invariant
                n + rest@.len() == all.len(),
                all.len() <= usize::MAX,
                rest@ == all.skip(n as int),
                t@ == entries_map(all.take(n as int)),
            decreases rest@.len(),
        {
            let (k, v) = rest.remove(0);
            assert(all.take(n + 1).drop_last() =~= all.take(n as int));
            t.insert(k, v);
            n = n + 1;
            assert(rest@ =~= all.skip(n as int));
        }
        assert(all.take(n as int) =~= all);
        t
    }

    /// Sets the value under `key`, replacing any earlier one.
    pub fn insert(&mut self, key: String, value: V)
        ensures
            final(self)@ == old(self)@.insert(key@, value),
    {
        proof {
            use_type_invariant(&*self);
        }
        let mut entries: Vec<(String, V)> = Vec::new();
        std::mem::swap(&mut entries, &mut self.entries);
        let ghost old_entries = entries@;
        match find_entry(&entries, key.as_str()) {
            Some(i) => {
                proof {
                    lemma_entries_map_update(old_entries, i as int, key, value);
                }
                entries.set(i, (key, value));
            },
            None => {
                entries.push((key, value));
                proof {
                    assert(entries@.drop_last() =~= old_entries);
                    assert(keys_unique(entries@)) by {
                        assert forall|a: int, b: int|
                            0 <= a < entries@.len() && 0 <= b < entries@.len() && a
                                != b implies #[trigger] entries@[a].0@
                            != #[trigger] entries@[b].0@ by {
                            if a == old_entries.len() {
                                assert(old_entries[b].0@ != key@);
                            } else if b == old_entries.len() {
                                assert(old_entries[a].0@ != key@);
                            }
                        }
                    }
                }
            },
        }
        self.entries = entries;
    }

    /// The value under `key`, if the table has one.
    pub fn get(&self, key: &str) -> (r: Option<&V>)
        ensures
            r is Some <==> self@.dom().contains(key@),
            r matches Some(v) ==> *v == self@[key@],
    {
        proof {
            use_type_invariant(self);
            lemma_entries_map_lookup(self.entries@, key@);
        }
        match find_entry(&self.entries, key) {
            Some(i) => Some(&self.entries[i].1),
            None => None,
        }
    }

    /// The number of keys in the table.
    pub fn len(&self) -> (n: usize)
        ensures
            self@.dom().finite(),
            n == self@.dom().len(),
            n == self.pairs().len(),
    {
        proof {
            use_type_invariant(self);
            lemma_entries_map_len(self.entries@);
        }
        self.entries.len()
    }

    /// The pairs of the table: each key of the table once, with its value.
    pub fn entries(&self) -> (r: &Vec<(String, V)>)
        ensures
            r@ == self.pairs(),
            keys_unique(r@),
            self@ == entries_map(r@),
    {
        proof {
            use_type_invariant(self);
        }
        &self.entries
    }
}

impl<V> View for KeyedTable<V> {
    type V = Map<Seq<char>, V>;

    closed spec fn view(&self) -> Map<Seq<char>, V> {
        entries_map(self.entries@)
    }
}

} // verus!
