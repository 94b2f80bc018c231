//! Two small collections keyed by strings: a set of keys and a map from keys to
//! values. Both are backed by vectors and are meant for the handful of field
//! names that a record has.
use vstd::prelude::*;
use crate::value::{Value, ValueView};

verus! {

/// Whether two strings hold the same characters.
pub fn same_text(a: &str, b: &str) -> (r: bool)
    ensures
        r == (a@ == b@),
{
    let x = String::from_str(a);
    let y = String::from_str(b);
    x == y
}

/// Whether `keys` holds a string with the characters of `key`.
pub open spec fn has_key(keys: Seq<String>, key: Seq<char>) -> bool {
    exists|i: int| 0 <= i < keys.len() && (#[trigger] keys[i])@ == key
}

/// Whether `keys` holds `key`.
pub fn contains_key(keys: &Vec<String>, key: &str) -> (r: bool)
    ensures
        r == has_key(keys@, key@),
{
    let mut i: usize = 0;
    while i < keys.len()
        invariant
            i <= keys.len(),
            forall|j: int| 0 <= j < i ==> (#[trigger] keys[j])@ != key@,
        decreases keys.len() - i,
    {
        if same_text(keys[i].as_str(), key) {
            return true;
        }
        i += 1;
    }
    false
}

/// The keys that `keys` holds, as a set.
pub open spec fn keys_of(keys: Seq<String>) -> Set<Seq<char>> {
    Set::new(|k: Seq<char>| has_key(keys, k))
}

/// A list with one more key holds one more key.
pub proof fn keys_of_push(keys: Seq<String>, key: String)
    ensures
        keys_of(keys.push(key)) == keys_of(keys).insert(key@),
{
    let more = keys.push(key);
    assert forall|k: Seq<char>| has_key(more, k) <==> (k == key@ || has_key(keys, k)) by {
        if has_key(keys, k) {
            let i = choose|i: int| 0 <= i < keys.len() && (#[trigger] keys[i])@ == k;
            assert(more[i]@ == k);
        }
        if k == key@ {
            assert(more[keys.len() as int]@ == k);
        }
        if has_key(more, k) {
            let i = choose|i: int| 0 <= i < more.len() && (#[trigger] more[i])@ == k;
            if i < keys.len() {
                assert(keys[i]@ == k);
            }
        }
    }
    assert(keys_of(more) =~= keys_of(keys).insert(key@));
}

/// The empty list holds no key.
pub proof fn keys_of_empty()
    ensures
        keys_of(Seq::<String>::empty()) == Set::<Seq<char>>::empty(),
{
    assert(keys_of(Seq::<String>::empty()) =~= Set::<Seq<char>>::empty());
}

/// A set of keys.
pub struct KeySet {
    keys: Vec<String>,
}

impl View for KeySet {
    type V = Set<Seq<char>>;

    closed spec fn view(&self) -> Set<Seq<char>> {
        keys_of(self.keys@)
    }
}

impl KeySet {
    /// The empty set.
    pub fn new() -> (r: KeySet)
        ensures
            r@ == Set::<Seq<char>>::empty(),
    {
        let r = KeySet { keys: Vec::new() };
        proof {
            keys_of_empty();
            assert(r.keys@ =~= Seq::<String>::empty());
        }
        r
    }

    /// Whether the set holds no key.
    pub fn is_empty(&self) -> (r: bool)
        ensures
            r == (self@ == Set::<Seq<char>>::empty()),
    {
        let r = self.keys.len() == 0;
        proof {
            if r {
                assert(self@ =~= Set::<Seq<char>>::empty());
            } else {
                assert(has_key(self.keys@, self.keys[0]@));
                assert(self@.contains(self.keys[0]@));
            }
        }
        r
    }

    /// Whether the set holds `key`.
    pub fn contains(&self, key: &str) -> (r: bool)
        ensures
            r == self@.contains(key@),
    {
        contains_key(&self.keys, key)
    }

    /// Adds `key` to the set.
    pub fn insert(&mut self, key: String)
        ensures
            final(self)@ == old(self)@.insert(key@),
    {
        if !contains_key(&self.keys, key.as_str()) {
            proof {
                keys_of_push(self.keys@, key);
            }
            self.keys.push(key);
        } else {
            assert(self@ =~= self@.insert(key@));
        }
    }

    /// Takes `key` out of the set.
    pub fn remove(&mut self, key: &str)
        ensures
            final(self)@ == old(self)@.remove(key@),
    {
        let mut kept: Vec<String> = Vec::new();
        let mut i: usize = 0;
        proof {
            keys_of_empty();
            assert(self.keys@.take(0) =~= Seq::<String>::empty());
            assert(keys_of(kept@) =~= keys_of(self.keys@.take(0)).remove(key@));
        }
        while i < self.keys.len()
            invariant
                i <= self.keys.len(),
                keys_of(kept@) == keys_of(self.keys@.take(i as int)).remove(key@),
            decreases self.keys.len() - i,
        {
            proof {
                keys_of_push(self.keys@.take(i as int), self.keys[i as int]);
                assert(self.keys@.take(i + 1) =~= self.keys@.take(i as int).push(
                    self.keys[i as int],
                ));
            }
            if !same_text(self.keys[i].as_str(), key) {
                let k = self.keys[i].clone();
                proof {
                    keys_of_push(kept@, k);
                }
                kept.push(k);
            }
            assert(keys_of(kept@) =~= keys_of(self.keys@.take(i + 1)).remove(key@));
            i += 1;
        }
        assert(self.keys@.take(i as int) =~= self.keys@);
        self.keys = kept;
    }

    /// Adds every key of `keys` to the set.
    pub fn extend(&mut self, keys: &Vec<String>)
        ensures
            final(self)@ == old(self)@.union(keys_of(keys@)),
    {
        let mut i: usize = 0;
        proof {
            keys_of_empty();
            assert(keys@.take(0) =~= Seq::<String>::empty());
            assert(self@ =~= old(self)@.union(keys_of(keys@.take(0))));
        }
        while i < keys.len()
            invariant
                i <= keys.len(),
                self@ == old(self)@.union(keys_of(keys@.take(i as int))),
            decreases keys.len() - i,
        {
            proof {
                keys_of_push(keys@.take(i as int), keys[i as int]);
                assert(keys@.take(i + 1) =~= keys@.take(i as int).push(keys[i as int]));
            }
            self.insert(keys[i].clone());
            assert(self@ =~= old(self)@.union(keys_of(keys@.take(i + 1))));
            i += 1;
        }
        assert(keys@.take(i as int) =~= keys@);
    }

    /// The keys of the set.
    pub fn to_vec(&self) -> (r: Vec<String>)
        ensures
            keys_of(r@) == self@,
    {
        let mut out: Vec<String> = Vec::new();
        let mut i: usize = 0;
        proof {
            keys_of_empty();
            assert(self.keys@.take(0) =~= Seq::<String>::empty());
            assert(out@ =~= Seq::<String>::empty());
        }
        while i < self.keys.len()
            invariant
                i <= self.keys.len(),
                keys_of(out@) == keys_of(self.keys@.take(i as int)),
            decreases self.keys.len() - i,
        {
            let k = self.keys[i].clone();
            proof {
                keys_of_push(self.keys@.take(i as int), self.keys[i as int]);
                keys_of_push(out@, k);
                assert(self.keys@.take(i + 1) =~= self.keys@.take(i as int).push(
                    self.keys[i as int],
                ));
            }
            out.push(k);
            i += 1;
        }
        assert(self.keys@.take(i as int) =~= self.keys@);
        out
    }
}

/// A map from keys to values.
pub struct ValueMap {
    entries: Vec<(String, Value)>,
}

/// Whether the entry at `i` is the first of `entries` under `key`.
pub closed spec fn first_at(entries: Seq<(String, Value)>, key: Seq<char>, i: int) -> bool {
    &&& 0 <= i < entries.len()
    &&& entries[i].0@ == key
    &&& forall|j: int| 0 <= j < i ==> (#[trigger] entries[j]).0@ != key
}

/// Whether `entries` holds an entry under `key`.
pub closed spec fn placed(entries: Seq<(String, Value)>, key: Seq<char>) -> bool {
    exists|i: int| first_at(entries, key, i)
}

/// The place of the first entry under `key`, where there is one.
pub closed spec fn place(entries: Seq<(String, Value)>, key: Seq<char>) -> int {
    choose|i: int| first_at(entries, key, i)
}

/// The first entry under a key is at one place only.
proof fn first_is_one(entries: Seq<(String, Value)>, key: Seq<char>, a: int, b: int)
    requires
        first_at(entries, key, a),
        first_at(entries, key, b),
    ensures
        a == b,
{
    if a < b {
        assert(entries[a].0@ != key);
    }
    if b < a {
        assert(entries[b].0@ != key);
    }
}

/// Two lists with the same keys at the same places have their first entries at
/// the same places.
proof fn same_keys_same_places(x: Seq<(String, Value)>, y: Seq<(String, Value)>)
    requires
        x.len() == y.len(),
        forall|i: int| 0 <= i < x.len() ==> (#[trigger] x[i]).0@ == y[i].0@,
    ensures
        forall|k: Seq<char>, i: int| first_at(x, k, i) <==> first_at(y, k, i),
{
    assert forall|k: Seq<char>, i: int| first_at(x, k, i) <==> first_at(y, k, i) by {
        if first_at(x, k, i) {
            assert(x[i].0@ == y[i].0@);
            assert forall|j: int| 0 <= j < i implies (#[trigger] y[j]).0@ != k by {
                assert(x[j].0@ == y[j].0@);
            }
        }
        if first_at(y, k, i) {
            assert(x[i].0@ == y[i].0@);
            assert forall|j: int| 0 <= j < i implies (#[trigger] x[j]).0@ != k by {
                assert(x[j].0@ == y[j].0@);
            }
        }
    }
}

impl View for ValueMap {
    type V = Map<Seq<char>, ValueView>;

    closed spec fn view(&self) -> Map<Seq<char>, ValueView> {
        Map::new(
            |k: Seq<char>| placed(self.entries@, k),
            |k: Seq<char>| self.entries@[place(self.entries@, k)].1@,
        )
    }
}

impl ValueMap {
    /// The empty map.
    pub fn new() -> (r: ValueMap)
        ensures
            r@ == Map::<Seq<char>, ValueView>::empty(),
    {
        let r = ValueMap { entries: Vec::new() };
        assert(r@ =~= Map::<Seq<char>, ValueView>::empty());
        r
    }

    /// The index of the first entry under `key`.
    fn find(&self, key: &str) -> (r: Option<usize>)
        ensures
            r is Some == self@.contains_key(key@),
            r is None ==> forall|j: int|
                0 <= j < self.entries.len() ==> (#[trigger] self.entries[j]).0@ != key@,
            r matches Some(i) ==> first_at(self.entries@, key@, i as int) && self@[key@]
                == self.entries[i as int].1@,
    {
        let mut i: usize = 0;
        while i < self.entries.len()
            invariant
                i <= self.entries.len(),
                forall|j: int| 0 <= j < i ==> (#[trigger] self.entries[j]).0@ != key@,
            decreases self.entries.len() - i,
        {
            if same_text(self.entries[i].0.as_str(), key) {
                proof {
                    assert(first_at(self.entries@, key@, i as int));
                    first_is_one(self.entries@, key@, i as int, place(self.entries@, key@));
                }
                return Some(i);
            }
            i += 1;
        }
        proof {
            if placed(self.entries@, key@) {
                let j = place(self.entries@, key@);
                assert(self.entries[j].0@ == key@);
            }
        }
        None
    }

    /// The value under `key`.
    pub fn get(&self, key: &str) -> (r: Option<&Value>)
        ensures
            r is Some == self@.contains_key(key@),
            r matches Some(v) ==> v@ == self@[key@],
    {
        match self.find(key) {
            Some(i) => Some(&self.entries[i].1),
            None => None,
        }
    }

    /// Whether the map holds a value under `key`.
    pub fn contains_key(&self, key: &str) -> (r: bool)
        ensures
            r == self@.contains_key(key@),
    {
        self.find(key).is_some()
    }

    /// Puts `value` under `key`, in place of what was there.
    pub fn insert(&mut self, key: String, value: Value)
        ensures
            final(self)@ == old(self)@.insert(key@, value@),
    {
        let ghost before = self.entries@;
        let ghost k0 = key@;
        let ghost v0 = value@;
        let found = self.find(key.as_str());
        match found {
            Some(i) => {
                self.entries.set(i, (key, value));
                proof {
                    let after = self.entries@;
                    same_keys_same_places(before, after);
                    assert forall|k: Seq<char>| placed(after, k) <==> placed(before, k) by {
                        if placed(before, k) {
                            assert(first_at(after, k, place(before, k)));
                        }
                        if placed(after, k) {
                            assert(first_at(before, k, place(after, k)));
                        }
                    }
                    assert forall|k: Seq<char>| placed(before, k) implies after[place(after, k)].1@
                        == (if k == k0 {
                        v0
                    } else {
                        before[place(before, k)].1@
                    }) by {
                        let a = place(after, k);
                        let b = place(before, k);
                        assert(first_at(after, k, b));
                        first_is_one(after, k, a, b);
                        if k == k0 {
                            first_is_one(before, k, b, i as int);
                        }
                    }
                }
            },
            None => {
                self.entries.push((key, value));
                proof {
                    let after = self.entries@;
                    let n = before.len() as int;
                    assert forall|k: Seq<char>, i: int| first_at(before, k, i) implies first_at(
                        after,
                        k,
                        i,
                    ) by {
                        assert(after[i] == before[i]);
                        assert forall|j: int| 0 <= j < i implies (#[trigger] after[j]).0@ != k by {
                            assert(after[j] == before[j]);
                        }
                    }
                    assert(first_at(after, k0, n)) by {
                        assert forall|j: int| 0 <= j < n implies (#[trigger] after[j]).0@ != k0 by {
                            assert(after[j] == before[j]);
                        }
                    }
                    assert forall|k: Seq<char>, i: int| first_at(after, k, i) && k
                        != k0 implies first_at(before, k, i) by {
                        assert(i < n);
                        assert(after[i] == before[i]);
                        assert forall|j: int| 0 <= j < i implies (#[trigger] before[j]).0@ != k by {
                            assert(after[j] == before[j]);
                        }
                    }
                    assert forall|k: Seq<char>| placed(after, k) <==> (k == k0 || placed(
                        before,
                        k,
                    )) by {
                        if placed(before, k) {
                            assert(first_at(after, k, place(before, k)));
                        }
                        if placed(after, k) && k != k0 {
                            assert(first_at(before, k, place(after, k)));
                        }
                    }
                    assert forall|k: Seq<char>| placed(after, k) implies after[place(after, k)].1@
                        == (if k == k0 {
                        v0
                    } else {
                        before[place(before, k)].1@
                    }) by {
                        let a = place(after, k);
                        if k == k0 {
                            first_is_one(after, k, a, n);
                        } else {
                            assert(first_at(before, k, a));
                            first_is_one(before, k, a, place(before, k));
                            assert(after[a] == before[a]);
                        }
                    }
                }
            },
        }
        assert(self@ =~= old(self)@.insert(key@, value@));
    }
}

impl Clone for ValueMap {
    fn clone(&self) -> (r: Self)
        ensures
            r@ == self@,
    {
        let mut out: Vec<(String, Value)> = Vec::new();
        let mut i: usize = 0;
        while i < self.entries.len()
            invariant
                i <= self.entries.len(),
                out.len() == i,
                forall|j: int|
                    0 <= j < i ==> (#[trigger] out[j]).0@ == self.entries[j].0@ && out[j].1@
                        == self.entries[j].1@,
            decreases self.entries.len() - i,
        {
            out.push((self.entries[i].0.clone(), self.entries[i].1.clone()));
            i += 1;
        }
        let r = ValueMap { entries: out };
        proof {
            let x = r.entries@;
            let y = self.entries@;
            same_keys_same_places(x, y);
            assert forall|k: Seq<char>| placed(x, k) <==> placed(y, k) by {
                if placed(x, k) {
                    assert(first_at(y, k, place(x, k)));
                }
                if placed(y, k) {
                    assert(first_at(x, k, place(y, k)));
                }
            }
            assert forall|k: Seq<char>| placed(y, k) implies x[place(x, k)].1@ == y[place(y, k)].1@ by {
                assert(first_at(y, k, place(x, k)));
                first_is_one(y, k, place(x, k), place(y, k));
            }
            assert(r@ =~= self@);
        }
        r
    }
}

} // verus!
