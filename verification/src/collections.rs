//! Associative collections whose contents are a mathematical map or set.

use vstd::prelude::*;

verus! {

/// A type whose values can serve as keys of a [`KeyedMap`].
///
/// Two keys address the same entry exactly when their key views are equal.
pub trait MapKey: Sized {
    type KeyView;

    spec fn key_view(&self) -> Self::KeyView;

    fn same_key(&self, other: &Self) -> (same: bool)
        ensures
            same == (self.key_view() == other.key_view()),
    ;
}

impl MapKey for u64 {
    type KeyView = u64;

    open spec fn key_view(&self) -> u64 {
        *self
    }

    fn same_key(&self, other: &Self) -> (same: bool) {
        *self == *other
    }
}

impl MapKey for u128 {
    type KeyView = u128;

    open spec fn key_view(&self) -> u128 {
        *self
    }

    fn same_key(&self, other: &Self) -> (same: bool) {
        *self == *other
    }
}

impl MapKey for String {
    type KeyView = Seq<char>;

    open spec fn key_view(&self) -> Seq<char> {
        self@
    }

    fn same_key(&self, other: &Self) -> (same: bool) {
        *self == *other
    }
}

/// A map from keys to values, kept as a list of entries with pairwise distinct keys.
#[derive(Debug)]
pub struct KeyedMap<K: MapKey, V: View> {
    entries: Vec<(K, V)>,
}

spec fn distinct_entry_keys<K: MapKey, V: View>(entries: Seq<(K, V)>) -> bool {
    forall|i: int, j: int|
        0 <= i < entries.len() && 0 <= j < entries.len() && i != j
            ==> #[trigger] entries[i].0.key_view() != #[trigger] entries[j].0.key_view()
}

spec fn holds_key<K: MapKey, V: View>(entries: Seq<(K, V)>, k: K::KeyView) -> bool {
    exists|i: int| 0 <= i < entries.len() && #[trigger] entries[i].0.key_view() == k
}

spec fn position<K: MapKey, V: View>(entries: Seq<(K, V)>, k: K::KeyView) -> int {
    choose|i: int| 0 <= i < entries.len() && #[trigger] entries[i].0.key_view() == k
}

spec fn entry_map<K: MapKey, V: View>(entries: Seq<(K, V)>) -> Map<K::KeyView, V::V> {
    Map::new(
        |k: K::KeyView| holds_key(entries, k),
        |k: K::KeyView| entries[position(entries, k)].1@,
    )
}

impl<K: MapKey, V: View> View for KeyedMap<K, V> {
    type V = Map<K::KeyView, V::V>;

    closed spec fn view(&self) -> Map<K::KeyView, V::V> {
        entry_map(self.entries@)
    }
}

/// Whether entries are those of a map, each of them once.
pub open spec fn lists<K, V>(entries: Seq<(K, V)>, map: Map<K, V>) -> bool {
    &&& forall|i: int, j: int|
        0 <= i < entries.len() && 0 <= j < entries.len() && i != j ==> (#[trigger] entries[i]).0 != (
        #[trigger] entries[j]).0
    &&& forall|i: int|
        0 <= i < entries.len() ==> map.contains_key((#[trigger] entries[i]).0)
            && map[entries[i].0] == entries[i].1
    &&& forall|k: K| #[trigger]
        map.contains_key(k) ==> exists|i: int|
            0 <= i < entries.len() && (#[trigger] entries[i]).0 == k
}

impl<K: MapKey, V: View> KeyedMap<K, V> {
    /// The entries in the order in which they are kept.
    pub closed spec fn listed(self) -> Seq<(K::KeyView, V::V)> {
        Seq::new(
            self.entries@.len(),
            |i: int| (self.entries@[i].0.key_view(), self.entries@[i].1@),
        )
    }
}

/// Appending an entry with a fresh key inserts it into the map.
proof fn lemma_push_entry<K: MapKey, V: View>(entries: Seq<(K, V)>, k: K, v: V)
    requires
        distinct_entry_keys(entries),
        !holds_key(entries, k.key_view()),
    ensures
        distinct_entry_keys(entries.push((k, v))),
        entry_map(entries.push((k, v))) == entry_map(entries).insert(k.key_view(), v@),
{
    let after = entries.push((k, v));
    assert(after[entries.len() as int].0.key_view() == k.key_view());
    assert forall|x: K::KeyView| holds_key(after, x) == (holds_key(entries, x) || x
        == k.key_view()) by {
        if holds_key(entries, x) {
            let i = position(entries, x);
            assert(after[i].0.key_view() == x);
        }
        if holds_key(after, x) && x != k.key_view() {
            let i = position(after, x);
            assert(entries[i].0.key_view() == x);
        }
    }
    assert forall|x: K::KeyView| holds_key(after, x) implies entry_map(after)[x] == entry_map(
        entries,
    ).insert(k.key_view(), v@)[x] by {
        let i = position(after, x);
        assert(after[i].0.key_view() == x);
        if x != k.key_view() {
            assert(entries[i].0.key_view() == x);
            let j = position(entries, x);
            assert(entries[j].0.key_view() == x);
            assert(i == j);
        } else if i != entries.len() {
            assert(entries[i].0.key_view() == x);
        }
    }
    assert(entry_map(after) =~= entry_map(entries).insert(k.key_view(), v@));
}

/// Removing the entry at index `at` removes its key from the map.
proof fn lemma_remove_entry<K: MapKey, V: View>(entries: Seq<(K, V)>, at: int)
    requires
        distinct_entry_keys(entries),
        0 <= at < entries.len(),
    ensures
        distinct_entry_keys(entries.remove(at)),
        holds_key(entries, entries[at].0.key_view()),
        entry_map(entries)[entries[at].0.key_view()] == entries[at].1@,
        entry_map(entries.remove(at)) == entry_map(entries).remove(entries[at].0.key_view()),
{
    let key = entries[at].0.key_view();
    let after = entries.remove(at);
    assert(holds_key(entries, key));
    assert(position(entries, key) == at);
    assert forall|i: int| 0 <= i < after.len() implies #[trigger] after[i] == entries[if i < at {
        i
    } else {
        i + 1
    }] by {}
    assert forall|x: K::KeyView| holds_key(after, x) == (holds_key(entries, x) && x != key) by {
        if holds_key(after, x) {
            let i = position(after, x);
            let j = if i < at {
                i
            } else {
                i + 1
            };
            assert(entries[j].0.key_view() == x);
        }
        if holds_key(entries, x) && x != key {
            let j = position(entries, x);
            let i = if j < at {
                j
            } else {
                j - 1
            };
            assert(after[i].0.key_view() == x);
        }
    }
    assert forall|x: K::KeyView| holds_key(after, x) implies entry_map(after)[x] == entry_map(
        entries,
    )[x] by {
        let i = position(after, x);
        assert(after[i].0.key_view() == x);
        let j = if i < at {
            i
        } else {
            i + 1
        };
        assert(entries[j].0.key_view() == x);
        let p = position(entries, x);
        assert(entries[p].0.key_view() == x);
        assert(p == j);
    }
    assert(entry_map(after) =~= entry_map(entries).remove(key));
}

impl<K: MapKey, V: View> KeyedMap<K, V> {
    #[verifier::type_invariant]
    spec fn distinct_keys(self) -> bool {
        distinct_entry_keys(self.entries@)
    }

    /// Creates an empty map.
    pub fn new() -> (map: Self)
        ensures
            map@ == Map::<K::KeyView, V::V>::empty(),
    {
        let map = KeyedMap { entries: Vec::new() };
        assert(map@ =~= Map::<K::KeyView, V::V>::empty());
        map
    }

    /// Returns the number of entries.
    pub fn len(&self) -> (count: usize)
        ensures
            count == self.listed().len(),
            lists(self.listed(), self@),
    {
        proof {
            use_type_invariant(self);
            let listed = self.listed();
            assert forall|i: int| 0 <= i < listed.len() implies self@.contains_key(
                (#[trigger] listed[i]).0,
            ) && self@[listed[i].0] == listed[i].1 by {
                lemma_remove_entry(self.entries@, i);
            }
            assert forall|k: K::KeyView| #[trigger] self@.contains_key(k) implies exists|i: int|
                0 <= i < listed.len() && (#[trigger] listed[i]).0 == k by {
                let i = position(self.entries@, k);
                assert(listed[i].0 == k);
            }
            assert forall|i: int, j: int|
                0 <= i < listed.len() && 0 <= j < listed.len() && i != j implies (
            #[trigger] listed[i]).0 != (#[trigger] listed[j]).0 by {
                assert(self.entries@[i].0.key_view() != self.entries@[j].0.key_view());
            }
        }
        self.entries.len()
    }

    /// Returns an entry.
    pub fn entry(&self, i: usize) -> (entry: (&K, &V))
        requires
            i < self.listed().len(),
        ensures
            (entry.0.key_view(), entry.1@) == self.listed()[i as int],
    {
        (&self.entries[i].0, &self.entries[i].1)
    }

    /// Returns the index of the entry with the given key.
    fn find(&self, key: &K) -> (found: Option<usize>)
        ensures
            match found {
                Some(i) => i < self.entries@.len() && self.entries@[i as int].0.key_view()
                    == key.key_view(),
                None => !holds_key(self.entries@, key.key_view()),
            },
    {
        let mut i: usize = 0;
        while i < self.entries.len()
            invariant
                i <= self.entries@.len(),
                forall|j: int|
                    0 <= j < i ==> #[trigger] self.entries@[j].0.key_view() != key.key_view(),
            decreases self.entries@.len() - i,
        {
            if self.entries[i].0.same_key(key) {
                return Some(i);
            }
            i += 1;
        }
        None
    }

    /// Returns the value stored under the given key.
    pub fn get(&self, key: &K) -> (value: Option<&V>)
        ensures
            match value {
                Some(v) => self@.contains_key(key.key_view()) && v@ == self@[key.key_view()],
                None => !self@.contains_key(key.key_view()),
            },
    {
        proof {
            use_type_invariant(self);
        }
        match self.find(key) {
            Some(i) => {
                proof {
                    lemma_remove_entry(self.entries@, i as int);
                }
                Some(&self.entries[i].1)
            },
            None => None,
        }
    }

    /// Returns whether a value is stored under the given key.
    pub fn contains_key(&self, key: &K) -> (found: bool)
        ensures
            found == self@.contains_key(key.key_view()),
    {
        self.get(key).is_some()
    }

    /// Removes the entry with the given key and returns its value.
    pub fn remove(&mut self, key: &K) -> (value: Option<V>)
        ensures
            final(self)@ == old(self)@.remove(key.key_view()),
            match value {
                Some(v) => old(self)@.contains_key(key.key_view()) && v@
                    == old(self)@[key.key_view()],
                None => !old(self)@.contains_key(key.key_view()) && final(self)@ == old(self)@,
            },
    {
        proof {
            use_type_invariant(&*self);
        }
        match self.find(key) {
            Some(i) => {
                proof {
                    lemma_remove_entry(self.entries@, i as int);
                }
                let mut entries: Vec<(K, V)> = Vec::new();
                std::mem::swap(&mut entries, &mut self.entries);
                let (_, v) = entries.remove(i);
                self.entries = entries;
                Some(v)
            },
            None => {
                assert(self@.remove(key.key_view()) =~= self@);
                None
            },
        }
    }

    /// Stores a value under the given key and returns the value that it replaces.
    pub fn insert(&mut self, key: K, value: V) -> (replaced: Option<V>)
        ensures
            final(self)@ == old(self)@.insert(key.key_view(), value@),
            match replaced {
                Some(v) => old(self)@.contains_key(key.key_view()) && v@
                    == old(self)@[key.key_view()],
                None => !old(self)@.contains_key(key.key_view()),
            },
    {
        let ghost before = self@;
        let replaced = self.remove(&key);
        proof {
            use_type_invariant(&*self);
            assert(!self@.contains_key(key.key_view()));
            lemma_push_entry(self.entries@, key, value);
            assert(self@.insert(key.key_view(), value@) =~= before.insert(key.key_view(), value@));
        }
        let mut entries: Vec<(K, V)> = Vec::new();
        std::mem::swap(&mut entries, &mut self.entries);
        entries.push((key, value));
        self.entries = entries;
        replaced
    }
}

/// A set of keys.
pub struct KeyedSet<K: MapKey> {
    members: KeyedMap<K, ()>,
}

impl<K: MapKey> View for KeyedSet<K> {
    type V = Set<K::KeyView>;

    closed spec fn view(&self) -> Set<K::KeyView> {
        self.members@.dom()
    }
}

impl<K: MapKey> KeyedSet<K> {
    /// Creates an empty set.
    pub fn new() -> (set: Self)
        ensures
            set@ == Set::<K::KeyView>::empty(),
    {
        let set = KeyedSet { members: KeyedMap::new() };
        assert(set@ =~= Set::<K::KeyView>::empty());
        set
    }

    /// Returns whether the set holds the given key.
    pub fn contains(&self, key: &K) -> (found: bool)
        ensures
            found == self@.contains(key.key_view()),
    {
        self.members.contains_key(key)
    }

    /// Adds a key and returns whether the set lacked it.
    pub fn insert(&mut self, key: K) -> (added: bool)
        ensures
            final(self)@ == old(self)@.insert(key.key_view()),
            added == !old(self)@.contains(key.key_view()),
    {
        let ghost before = self@;
        let replaced = self.members.insert(key, ());
        assert(self@ =~= before.insert(key.key_view()));
        replaced.is_none()
    }

    /// Removes a key and returns whether the set held it.
    pub fn remove(&mut self, key: &K) -> (removed: bool)
        ensures
            final(self)@ == old(self)@.remove(key.key_view()),
            removed == old(self)@.contains(key.key_view()),
    {
        let ghost before = self@;
        let value = self.members.remove(key);
        assert(self@ =~= before.remove(key.key_view()));
        value.is_some()
    }
}

/// What is inserted under a key is found under it, replaces what was there, and changes nothing under any
/// other key. What is removed was there, and is not found any more.
pub proof fn lemma_entries_are_kept_by_key<K: MapKey, V: View>(
    map: &mut KeyedMap<K, V>,
    key: K,
    value: V,
    replaced: Option<V>,
    smaller: &mut KeyedMap<K, V>,
    gone: K,
    removed: Option<V>,
    other: K::KeyView,
)
    requires
        call_ensures(KeyedMap::<K, V>::insert, (map, key, value), replaced),
        call_ensures(KeyedMap::<K, V>::remove, (smaller, &gone), removed),
    ensures
        final(map)@.contains_key(key.key_view()),
        final(map)@[key.key_view()] == value@,
        replaced is Some <==> old(map)@.contains_key(key.key_view()),
        replaced is Some ==> replaced->0@ == old(map)@[key.key_view()],
        other != key.key_view() ==> {
            &&& final(map)@.contains_key(other) <==> old(map)@.contains_key(other)
            &&& old(map)@.contains_key(other) ==> final(map)@[other] == old(map)@[other]
        },
        !final(smaller)@.contains_key(gone.key_view()),
        removed is Some <==> old(smaller)@.contains_key(gone.key_view()),
        removed is Some ==> removed->0@ == old(smaller)@[gone.key_view()],
        other != gone.key_view() ==> {
            &&& final(smaller)@.contains_key(other) <==> old(smaller)@.contains_key(other)
            &&& old(smaller)@.contains_key(other) ==> final(smaller)@[other] == old(smaller)@[other]
        },
{
}

/// A key that is added to a set is in it, and one that is removed is not; the others stay. Whether that
/// changed the set is told.
pub proof fn lemma_keys_are_kept<K: MapKey>(
    set: &mut KeyedSet<K>,
    key: K,
    added: bool,
    smaller: &mut KeyedSet<K>,
    gone: K,
    removed: bool,
    other: K::KeyView,
)
    requires
        call_ensures(KeyedSet::<K>::insert, (set, key), added),
        call_ensures(KeyedSet::<K>::remove, (smaller, &gone), removed),
    ensures
        final(set)@.contains(key.key_view()),
        added <==> !old(set)@.contains(key.key_view()),
        other != key.key_view() ==> (final(set)@.contains(other) <==> old(set)@.contains(other)),
        !final(smaller)@.contains(gone.key_view()),
        removed <==> old(smaller)@.contains(gone.key_view()),
        other != gone.key_view() ==> (final(smaller)@.contains(other) <==> old(smaller)@.contains(
            other,
        )),
{
}

} // verus!
