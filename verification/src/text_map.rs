//! A map from text to text that keeps its keys in the order of insertion.

use vstd::hash_map::StringHashMap;
use vstd::prelude::*;

use crate::text;

verus! {

/// A map from text to text. No key occurs twice.
pub struct TextMap {
    items: Vec<(String, String)>,
}

/// Whether item `i` has the key `key`.
spec fn key_at(items: Seq<(String, String)>, i: int, key: Seq<char>) -> bool {
    0 <= i < items.len() && items[i].0@ == key
}

spec fn as_map(items: Seq<(String, String)>) -> Map<Seq<char>, Seq<char>> {
    Map::new(
        |key: Seq<char>| exists|i: int| key_at(items, i, key),
        |key: Seq<char>| items[choose|i: int| key_at(items, i, key)].1@,
    )
}

spec fn distinct(items: Seq<(String, String)>) -> bool {
    forall|i: int, j: int|
        0 <= i < j < items.len() ==> (#[trigger] items[i]).0@ != (#[trigger] items[j]).0@
}

proof fn value_at(items: Seq<(String, String)>, i: int)
    requires
        distinct(items),
        0 <= i < items.len(),
    ensures
        as_map(items).contains_key(items[i].0@),
        as_map(items)[items[i].0@] == items[i].1@,
{
    let key = items[i].0@;
    assert(key_at(items, i, key));
    let k = choose|k: int| key_at(items, k, key);
    assert(key_at(items, k, key));
    assert(k == i) by {
        if k < i {
            assert(items[k].0@ != items[i].0@);
        }
        if i < k {
            assert(items[i].0@ != items[k].0@);
        }
    }
}

impl View for TextMap {
    type V = Map<Seq<char>, Seq<char>>;

    closed spec fn view(&self) -> Map<Seq<char>, Seq<char>> {
        as_map(self.items@)
    }
}

impl TextMap {
    #[verifier::type_invariant]
    spec fn keys_distinct(&self) -> bool {
        distinct(self.items@)
    }

    /// The empty map.
    pub fn new() -> (m: Self)
        ensures
            m@ == Map::<Seq<char>, Seq<char>>::empty(),
    {
        let m = TextMap { items: Vec::new() };
        assert(m@ =~= Map::<Seq<char>, Seq<char>>::empty()) by {
            assert forall|key: Seq<char>| !m@.contains_key(key) by {
                assert(forall|i: int| !key_at(m.items@, i, key));
            }
        }
        m
    }

    /// Where the item with the key `key` stands.
    fn find(&self, key: &str) -> (r: Option<usize>)
        ensures
            r matches Some(i) ==> i < self.items@.len() && self.items@[i as int].0@ == key@,
            r is None ==> !self@.contains_key(key@),
    {
        let mut i: usize = 0;
        while i < self.items.len()
            invariant
                i <= self.items@.len(),
                forall|k: int| 0 <= k < i ==> !key_at(self.items@, k, key@),
            decreases self.items@.len() - i,
        {
            if text::same(self.items[i].0.as_str(), key) {
                return Some(i);
            }
            i += 1;
        }
        assert(forall|k: int| !key_at(self.items@, k, key@));
        None
    }

    /// Sets the value of `key`.
    pub fn insert(&mut self, key: &str, value: &str)
        ensures
            final(self)@ == old(self)@.insert(key@, value@),
    {
        proof {
            use_type_invariant(&*self);
        }
        let ghost before = self.items@;
        let mut items: Vec<(String, String)> = Vec::new();
        let found = self.find(key);
        let mut i: usize = 0;
        while i < self.items.len()
            invariant
                before == self.items@,
                i <= self.items@.len(),
                items@.len() == i,
                found matches Some(at) ==> at < before.len() && before[at as int].0@ == key@,
                forall|k: int|
                    0 <= k < i ==> (#[trigger] items@[k]).0@ == before[k].0@ && items@[k].1@ == (
                    if found == Some(k as usize) {
                        value@
                    } else {
                        before[k].1@
                    }),
            decreases self.items@.len() - i,
        {
            let value_now: String = match found {
                Some(at) => if at == i {
                    value.to_string()
                } else {
                    self.items[i].1.clone()
                },
                None => self.items[i].1.clone(),
            };
            items.push((self.items[i].0.clone(), value_now));
            i += 1;
        }
        if found.is_none() {
            items.push((key.to_string(), value.to_string()));
        }
        let ghost after = items@;
        assert(distinct(after)) by {
            assert forall|a: int, b: int| 0 <= a < b < after.len() implies (#[trigger] after[a]).0@
                != (#[trigger] after[b]).0@ by {
                if b < before.len() {
                    assert(before[a].0@ != before[b].0@);
                } else {
                    assert(key_at(before, a, before[a].0@));
                }
            }
        }
        assert(as_map(after) =~= as_map(before).insert(key@, value@)) by {
            assert forall|k: Seq<char>|
                as_map(after).contains_key(k) == as_map(before).insert(key@, value@).contains_key(
                    k,
                ) by {
                if as_map(after).contains_key(k) {
                    let n = choose|n: int| key_at(after, n, k);
                    assert(key_at(after, n, k));
                    if n < before.len() {
                        assert(key_at(before, n, k));
                    }
                }
                if as_map(before).contains_key(k) {
                    let n = choose|n: int| key_at(before, n, k);
                    assert(key_at(before, n, k));
                    assert(key_at(after, n, k));
                }
                if k == key@ {
                    match found {
                        Some(at) => assert(key_at(after, at as int, k)),
                        None => assert(key_at(after, before.len() as int, k)),
                    }
                }
            }
            assert forall|k: Seq<char>| #[trigger]
                as_map(after).contains_key(k) implies as_map(after)[k] == as_map(before).insert(
                key@,
                value@,
            )[k] by {
                let n = choose|n: int| key_at(after, n, k);
                assert(key_at(after, n, k));
                value_at(after, n);
                if n < before.len() {
                    value_at(before, n);
                    match found {
                        Some(at) => {
                            if n != at {
                                if n < at {
                                    assert(before[n].0@ != before[at as int].0@);
                                } else {
                                    assert(before[at as int].0@ != before[n].0@);
                                }
                            }
                        },
                        None => {
                            assert(key_at(before, n, k));
                        },
                    }
                }
            }
        }
        self.items = items;
    }

    /// The value of `key`.
    pub fn get(&self, key: &str) -> (r: Option<String>)
        ensures
            r is Some <==> self@.contains_key(key@),
            r matches Some(value) ==> value@ == self@[key@],
    {
        proof {
            use_type_invariant(&*self);
        }
        match self.find(key) {
            Some(i) => {
                proof {
                    value_at(self.items@, i as int);
                }
                Some(self.items[i].1.clone())
            },
            None => None,
        }
    }

    /// The keys, each once.
    pub fn keys(&self) -> (r: Vec<String>)
        ensures
            text::texts(r@).no_duplicates(),
            forall|key: Seq<char>| #[trigger] text::texts(r@).contains(key) <==> self@.contains_key(key),
    {
        proof {
            use_type_invariant(&*self);
        }
        let mut r: Vec<String> = Vec::new();
        let mut i: usize = 0;
        while i < self.items.len()
            invariant
                i <= self.items@.len(),
                r@.len() == i,
                forall|k: int| 0 <= k < i ==> (#[trigger] r@[k])@ == self.items@[k].0@,
            decreases self.items@.len() - i,
        {
            r.push(self.items[i].0.clone());
            i += 1;
        }
        let ghost names = text::texts(r@);
        assert(names.no_duplicates()) by {
            assert forall|a: int, b: int| 0 <= a < names.len() && 0 <= b < names.len() && a
                != b implies names[a] != names[b] by {
                if a < b {
                    assert(self.items@[a].0@ != self.items@[b].0@);
                } else {
                    assert(self.items@[b].0@ != self.items@[a].0@);
                }
            }
        }
        assert forall|key: Seq<char>| #[trigger] names.contains(key) <==> self@.contains_key(key) by {
            if names.contains(key) {
                let k = choose|k: int| 0 <= k < names.len() && names[k] == key;
                assert(key_at(self.items@, k, key));
            }
            if self@.contains_key(key) {
                let k = choose|k: int| key_at(self.items@, k, key);
                assert(key_at(self.items@, k, key));
                assert(names[k] == key);
            }
        }
        r
    }

    /// A hash map with the same entries.
    pub fn to_hash_map(&self) -> (r: StringHashMap<String>)
        ensures
            r@.dom() == self@.dom(),
            forall|key: Seq<char>| #[trigger] self@.contains_key(key) ==> r@[key]@ == self@[key],
    {
        proof {
            use_type_invariant(&*self);
        }
        let mut r: StringHashMap<String> = StringHashMap::new();
        let mut i: usize = 0;
        while i < self.items.len()
            invariant
                i <= self.items@.len(),
                distinct(self.items@),
                forall|key: Seq<char>| #[trigger]
                    r@.contains_key(key) <==> exists|k: int|
                        k < i && key_at(self.items@, k, key),
                forall|k: int|
                    0 <= k < i ==> r@.contains_key((#[trigger] self.items@[k]).0@)
                        && r@[self.items@[k].0@]@ == self.items@[k].1@,
            decreases self.items@.len() - i,
        {
            let ghost before = r@;
            r.insert(self.items[i].0.clone(), self.items[i].1.clone());
            assert forall|key: Seq<char>| #[trigger] r@.contains_key(key) <==> exists|k: int|
                k < i + 1 && key_at(self.items@, k, key) by {
                if key == self.items@[i as int].0@ {
                    assert(key_at(self.items@, i as int, key));
                } else if before.contains_key(key) {
                    let k = choose|k: int| k < i && key_at(self.items@, k, key);
                    assert(k < i + 1 && key_at(self.items@, k, key));
                } else {
                    assert forall|k: int| k < i + 1 implies !key_at(self.items@, k, key) by {}
                }
            }
            i += 1;
        }
        assert forall|key: Seq<char>| #[trigger] self@.contains_key(key) implies r@[key]@
            == self@[key] by {
            let k = choose|k: int| key_at(self.items@, k, key);
            assert(key_at(self.items@, k, key));
            value_at(self.items@, k);
        }
        assert(r@.dom() =~= self@.dom()) by {
            assert forall|key: Seq<char>| r@.dom().contains(key) == self@.dom().contains(key) by {
                assert(r@.contains_key(key) == r@.dom().contains(key));
                assert(self@.contains_key(key) == self@.dom().contains(key));
                if self@.contains_key(key) {
                    let k = choose|k: int| key_at(self.items@, k, key);
                    assert(k < i && key_at(self.items@, k, key));
                }
            }
        }
        r
    }
}

} // verus!
