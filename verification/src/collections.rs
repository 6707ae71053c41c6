//! Ordered collections of strings: a set and a map, both kept sorted.

use crate::text::{
    lemma_text_lt_irreflexive, lemma_text_lt_total, lemma_text_lt_transitive, str_eq, str_lt, text_lt,
};
use vstd::prelude::*;

verus! {

/// The texts of a sequence of strings.
pub open spec fn texts(v: Seq<String>) -> Seq<Seq<char>> {
    v.map_values(|s: String| s@)
}

/// Whether a sequence of texts is strictly increasing.
pub open spec fn sorted(s: Seq<Seq<char>>) -> bool {
    forall|i: int, j: int| 0 <= i < j < s.len() ==> text_lt(#[trigger] s[i], #[trigger] s[j])
}

/// Where `key` stands in a strictly increasing sequence, or where it belongs.
pub open spec fn slot_for(s: Seq<Seq<char>>, key: Seq<char>, at: int) -> bool {
    &&& 0 <= at <= s.len()
    &&& forall|i: int| 0 <= i < at ==> text_lt(#[trigger] s[i], key)
    &&& forall|i: int| at <= i < s.len() ==> !text_lt(#[trigger] s[i], key)
}

proof fn lemma_slot(s: Seq<Seq<char>>, key: Seq<char>, at: int)
    requires
        sorted(s),
        slot_for(s, key, at),
    ensures
        s.contains(key) <==> at < s.len() && s[at] == key,
        !s.contains(key) ==> sorted(s.insert(at, key)),
{
    if s.contains(key) {
        let k = choose|k: int| 0 <= k < s.len() && s[k] == key;
        lemma_text_lt_irreflexive(key);
        assert(k >= at);
        if k > at {
            assert(text_lt(s[at], s[k]));
        }
    } else {
        let t = s.insert(at, key);
        assert forall|i: int, j: int| 0 <= i < j < t.len() implies text_lt(
            #[trigger] t[i],
            #[trigger] t[j],
        ) by {
            if j == at {
                assert(t[i] == s[i]);
            } else if i == at {
                assert(t[j] == s[j - 1]);
                lemma_text_lt_total(s[j - 1], key);
            } else {
                let a = if i < at {
                    i
                } else {
                    i - 1
                };
                let b = if j < at {
                    j
                } else {
                    j - 1
                };
                assert(t[i] == s[a] && t[j] == s[b]);
            }
        }
    }
}

/// The first value that a function has below `n`.
pub open spec fn first_of<T>(n: nat, at: spec_fn(int) -> Option<T>) -> Option<T>
    decreases n,
{
    if n == 0 {
        None
    } else {
        match first_of((n - 1) as nat, at) {
            Some(x) => Some(x),
            None => at(n - 1),
        }
    }
}

/// A value among the first places is the first of all.
pub proof fn lemma_first_of<T>(n: nat, i: nat, at: spec_fn(int) -> Option<T>)
    requires
        i <= n,
        first_of(i, at) is Some,
    ensures
        first_of(n, at) == first_of(i, at),
    decreases n,
{
    if i < n {
        lemma_first_of((n - 1) as nat, i, at);
    }
}

/// Where there is no first value, no place has one.
pub proof fn lemma_none_of<T>(n: nat, i: int, at: spec_fn(int) -> Option<T>)
    requires
        first_of(n, at) is None,
        0 <= i < n,
    ensures
        at(i) is None,
    decreases n,
{
    if i < n - 1 {
        lemma_none_of((n - 1) as nat, i, at);
    }
}

/// Where some place has a value there is a first one, at a place before which there is none.
pub proof fn lemma_some_of<T>(n: nat, i: int, at: spec_fn(int) -> Option<T>)
    requires
        0 <= i < n,
        at(i) is Some,
    ensures
        first_of(n, at) is Some,
    decreases n,
{
    if i < n - 1 {
        lemma_some_of((n - 1) as nat, i, at);
    }
}

/// The first value stands at the first place that has one.
pub proof fn first_stands_first<T>(n: nat, i: int, at: spec_fn(int) -> Option<T>)
    requires
        0 <= i < n,
        at(i) is Some,
        forall|j: int| 0 <= j < i ==> (#[trigger] at(j)) is None,
    ensures
        first_of(n, at) == at(i),
    decreases n,
{
    if i < n - 1 {
        first_stands_first((n - 1) as nat, i, at);
    } else {
        none_where_no_place_has_one(i as nat, at);
    }
}

/// Where no place has a value there is no first one.
pub proof fn none_where_no_place_has_one<T>(n: nat, at: spec_fn(int) -> Option<T>)
    requires
        forall|j: int| 0 <= j < n ==> (#[trigger] at(j)) is None,
    ensures
        first_of(n, at) is None,
    decreases n,
{
    if n > 0 {
        none_where_no_place_has_one((n - 1) as nat, at);
    }
}

/// The place at which the first value stands.
pub proof fn place_of_first<T>(n: nat, at: spec_fn(int) -> Option<T>) -> (i: int)
    requires
        first_of(n, at) is Some,
    ensures
        0 <= i < n,
        first_of(n, at) == at(i),
        forall|j: int| 0 <= j < i ==> (#[trigger] at(j)) is None,
    decreases n,
{
    if first_of((n - 1) as nat, at) is Some {
        place_of_first((n - 1) as nat, at)
    } else {
        assert forall|j: int| 0 <= j < n - 1 implies (#[trigger] at(j)) is None by {
            lemma_none_of((n - 1) as nat, j, at);
        }
        n - 1
    }
}

/// The text of an optional string.
pub open spec fn opt_text(v: Option<String>) -> Option<Seq<char>> {
    match v {
        Some(s) => Some(s@),
        None => None,
    }
}

/// Copies strings one by one.
pub fn clone_strings(v: &Vec<String>) -> (r: Vec<String>)
    ensures
        r@ == v@,
{
    let mut out: Vec<String> = Vec::new();
    let mut i: usize = 0;
    while i < v.len()
        invariant
            i <= v@.len(),
            out@ == v@.take(i as int),
        decreases v@.len() - i,
    {
        out.push(v[i].clone());
        assert(v@.take(i + 1) =~= v@.take(i as int).push(v@[i as int]));
        i = i + 1;
    }
    assert(v@.take(v@.len() as int) =~= v@);
    out
}

/// A set of strings, in increasing order.
#[derive(Debug)]
pub struct StringSet {
    /// The members, strictly increasing.
    pub items: Vec<String>,
}

impl View for StringSet {
    type V = Set<Seq<char>>;

    open spec fn view(&self) -> Set<Seq<char>> {
        texts(self.items@).to_set()
    }
}

impl StringSet {
    /// The members are strictly increasing.
    pub open spec fn wf(&self) -> bool {
        sorted(texts(self.items@))
    }

    /// The empty set.
    pub fn new() -> (r: StringSet)
        ensures
            r.wf(),
            r@ == Set::<Seq<char>>::empty(),
    {
        let r = StringSet { items: Vec::new() };
        assert(texts(r.items@) =~= Seq::<Seq<char>>::empty());
        assert(r@ =~= Set::<Seq<char>>::empty());
        r
    }

    fn slot(&self, key: &str) -> (at: usize)
        requires
            self.wf(),
        ensures
            slot_for(texts(self.items@), key@, at as int),
    {
        let mut at: usize = 0;
        while at < self.items.len() && str_lt(self.items[at].as_str(), key)
            invariant
                self.wf(),
                at <= self.items@.len(),
                forall|i: int| 0 <= i < at ==> text_lt(#[trigger] texts(self.items@)[i], key@),
            decreases self.items@.len() - at,
        {
            assert(texts(self.items@)[at as int] == self.items@[at as int]@);
            at = at + 1;
        }
        let ghost t = texts(self.items@);
        assert forall|i: int| at <= i < t.len() implies !text_lt(#[trigger] t[i], key@) by {
            if text_lt(t[i], key@) {
                if i > at {
                    assert(text_lt(t[at as int], t[i]));
                    lemma_text_lt_transitive(t[at as int], t[i], key@);
                }
                assert(t[at as int] == self.items@[at as int]@);
            }
        }
        at
    }

    /// Adds a string; `true` when it was not there before.
    pub fn insert(&mut self, s: String) -> (fresh: bool)
        requires
            old(self).wf(),
        ensures
            final(self).wf(),
            final(self)@ == old(self)@.insert(s@),
            fresh == !old(self)@.contains(s@),
    {
        let at = self.slot(s.as_str());
        let ghost t = texts(self.items@);
        proof {
            lemma_slot(t, s@, at as int);
        }
        if at < self.items.len() && str_eq(self.items[at].as_str(), s.as_str()) {
            assert(t[at as int] == s@);
            assert(t.contains(s@));
            assert(old(self)@.insert(s@) =~= old(self)@);
            return false;
        }
        proof {
            if at < self.items@.len() {
                assert(t[at as int] == self.items@[at as int]@);
            }
            let u = t.insert(at as int, s@);
            assert(texts(self.items@.insert(at as int, s)) =~= u);
            assert forall|x: Seq<char>| u.contains(x) <==> (t.contains(x) || x == s@) by {
                if u.contains(x) {
                    let k = choose|k: int| 0 <= k < u.len() && u[k] == x;
                    if k < at {
                        assert(t[k] == x);
                    } else if k > at {
                        assert(t[k - 1] == x);
                    }
                }
                if t.contains(x) {
                    let k = choose|k: int| 0 <= k < t.len() && t[k] == x;
                    if k < at {
                        assert(u[k] == x);
                    } else {
                        assert(u[k + 1] == x);
                    }
                }
                assert(u[at as int] == s@);
            }
            assert(u.to_set() =~= t.to_set().insert(s@));
        }
        self.items.insert(at, s);
        true
    }

    /// Whether a string is a member.
    pub fn contains(&self, s: &str) -> (r: bool)
        requires
            self.wf(),
        ensures
            r == self@.contains(s@),
    {
        let at = self.slot(s);
        proof {
            lemma_slot(texts(self.items@), s@, at as int);
            if at < self.items@.len() {
                assert(texts(self.items@)[at as int] == self.items@[at as int]@);
            }
        }
        at < self.items.len() && str_eq(self.items[at].as_str(), s)
    }

    /// Number of members.
    pub fn len(&self) -> (r: usize)
        requires
            self.wf(),
        ensures
            r as nat == self@.len(),
    {
        proof {
            let t = texts(self.items@);
            assert(t.no_duplicates()) by {
                assert forall|i: int, j: int| 0 <= i < t.len() && 0 <= j < t.len() && i
                    != j implies t[i] != t[j] by {
                    if i < j {
                        lemma_text_lt_irreflexive(t[i]);
                    } else {
                        lemma_text_lt_irreflexive(t[j]);
                    }
                }
            }
            t.unique_seq_to_set();
        }
        self.items.len()
    }
}

/// The set of the given strings.
pub fn string_set_of(v: &Vec<String>) -> (r: StringSet)
    ensures
        r.wf(),
        r@ == texts(v@).to_set(),
{
    let mut out = StringSet::new();
    assert(texts(v@).take(0).to_set() =~= Set::<Seq<char>>::empty());
    let mut i: usize = 0;
    while i < v.len()
        invariant
            i <= v@.len(),
            out.wf(),
            out@ == texts(v@).take(i as int).to_set(),
        decreases v@.len() - i,
    {
        let ghost t = texts(v@);
        let _ = out.insert(v[i].clone());
        proof {
            let a = t.take(i as int);
            let b = t.take(i + 1);
            assert(b =~= a.push(t[i as int]));
            assert(b.to_set() =~= a.to_set().insert(t[i as int])) by {
                assert forall|x: Seq<char>| b.contains(x) <==> (a.contains(x) || x == t[i as int]) by {
                    if a.contains(x) {
                        let k = choose|k: int| 0 <= k < a.len() && a[k] == x;
                        assert(b[k] == x);
                    }
                    assert(b[i as int] == t[i as int]);
                    if b.contains(x) {
                        let k = choose|k: int| 0 <= k < b.len() && b[k] == x;
                        if k < i {
                            assert(a[k] == x);
                        }
                    }
                }
            }
        }
        i = i + 1;
    }
    assert(texts(v@).take(v@.len() as int) =~= texts(v@));
    out
}

/// A map from strings to strings, in increasing order of its keys.
#[derive(Debug)]
pub struct StringMap {
    /// Keys and values, the keys strictly increasing.
    pub entries: Vec<(String, String)>,
}

/// The keys of a sequence of entries.
pub open spec fn entry_keys(v: Seq<(String, String)>) -> Seq<Seq<char>> {
    v.map_values(|e: (String, String)| e.0@)
}

/// The map that a sequence of entries with distinct keys describes.
pub open spec fn entry_map(v: Seq<(String, String)>) -> Map<Seq<char>, Seq<char>> {
    Map::new(
        |k: Seq<char>| entry_keys(v).contains(k),
        |k: Seq<char>| v[entry_keys(v).index_of(k)].1@,
    )
}

impl View for StringMap {
    type V = Map<Seq<char>, Seq<char>>;

    open spec fn view(&self) -> Map<Seq<char>, Seq<char>> {
        entry_map(self.entries@)
    }
}

/// In a sequence with increasing keys, each entry is what the map holds under its key.
pub proof fn lemma_entry(v: Seq<(String, String)>, i: int)
    requires
        sorted(entry_keys(v)),
        0 <= i < v.len(),
    ensures
        entry_map(v).dom().contains(v[i].0@),
        entry_map(v)[v[i].0@] == v[i].1@,
{
    let keys = entry_keys(v);
    assert(keys[i] == v[i].0@);
    assert(keys.contains(v[i].0@));
    let k = keys.index_of(v[i].0@);
    if k < i {
        lemma_text_lt_irreflexive(keys[i]);
    } else if i < k {
        lemma_text_lt_irreflexive(keys[i]);
    }
}

impl StringMap {
    /// The keys are strictly increasing.
    pub open spec fn wf(&self) -> bool {
        sorted(entry_keys(self.entries@))
    }

    /// The empty map.
    pub fn new() -> (r: StringMap)
        ensures
            r.wf(),
            r@ == Map::<Seq<char>, Seq<char>>::empty(),
            r.entries@.len() == 0,
    {
        let r = StringMap { entries: Vec::new() };
        assert(entry_keys(r.entries@) =~= Seq::<Seq<char>>::empty());
        assert(r@ =~= Map::<Seq<char>, Seq<char>>::empty());
        r
    }

    fn slot(&self, key: &str) -> (at: usize)
        requires
            self.wf(),
        ensures
            slot_for(entry_keys(self.entries@), key@, at as int),
    {
        let mut at: usize = 0;
        while at < self.entries.len() && str_lt(self.entries[at].0.as_str(), key)
            invariant
                self.wf(),
                at <= self.entries@.len(),
                forall|i: int|
                    0 <= i < at ==> text_lt(#[trigger] entry_keys(self.entries@)[i], key@),
            decreases self.entries@.len() - at,
        {
            assert(entry_keys(self.entries@)[at as int] == self.entries@[at as int].0@);
            at = at + 1;
        }
        let ghost t = entry_keys(self.entries@);
        assert forall|i: int| at <= i < t.len() implies !text_lt(#[trigger] t[i], key@) by {
            if text_lt(t[i], key@) {
                if i > at {
                    assert(text_lt(t[at as int], t[i]));
                    lemma_text_lt_transitive(t[at as int], t[i], key@);
                }
                assert(t[at as int] == self.entries@[at as int].0@);
            }
        }
        at
    }

    /// Sets the value of a key, over any value that it had.
    pub fn insert(&mut self, key: String, value: String)
        requires
            old(self).wf(),
        ensures
            final(self).wf(),
            final(self)@ == old(self)@.insert(key@, value@),
    {
        let at = self.slot(key.as_str());
        let ghost v = self.entries@;
        let ghost t = entry_keys(v);
        proof {
            lemma_slot(t, key@, at as int);
            if at < v.len() {
                assert(t[at as int] == v[at as int].0@);
            }
        }
        if at < self.entries.len() && str_eq(self.entries[at].0.as_str(), key.as_str()) {
            let ghost w = v.update(at as int, (key, value));
            self.entries.set(at, (key, value));
            proof {
                assert(entry_keys(w) =~= t);
                lemma_same(v, w, at as int);
            }
        } else {
            let ghost w = v.insert(at as int, (key, value));
            self.entries.insert(at, (key, value));
            proof {
                assert(entry_keys(w) =~= t.insert(at as int, key@));
                lemma_added(v, w, at as int);
            }
        }
    }

    /// The value of a key, if it has one.
    pub fn get(&self, key: &str) -> (r: Option<&String>)
        requires
            self.wf(),
        ensures
            r is Some <==> self@.dom().contains(key@),
            r matches Some(v) ==> v@ == self@[key@],
    {
        let at = self.slot(key);
        proof {
            lemma_slot(entry_keys(self.entries@), key@, at as int);
            if at < self.entries@.len() {
                assert(entry_keys(self.entries@)[at as int] == self.entries@[at as int].0@);
            }
        }
        if at < self.entries.len() && str_eq(self.entries[at].0.as_str(), key) {
            proof {
                lemma_entry(self.entries@, at as int);
            }
            Some(&self.entries[at].1)
        } else {
            None
        }
    }
}

proof fn lemma_same(v: Seq<(String, String)>, w: Seq<(String, String)>, at: int)
    requires
        0 <= at < v.len(),
        w == v.update(at, w[at]),
        entry_keys(v) == entry_keys(w),
        sorted(entry_keys(v)),
    ensures
        entry_map(w) == entry_map(v).insert(w[at].0@, w[at].1@),
{
    let key = w[at].0@;
    lemma_entry(w, at);
    assert forall|k: Seq<char>| entry_map(w).dom().contains(k) implies entry_map(w)[k]
        == entry_map(v).insert(key, w[at].1@)[k] by {
        let i = entry_keys(w).index_of(k);
        assert(entry_keys(w)[i] == w[i].0@);
        lemma_entry(w, i);
        if k != key {
            assert(i != at);
            assert(v[i] == w[i]);
            lemma_entry(v, i);
        }
    }
    assert(entry_keys(w)[at] == key);
    assert(entry_map(w) =~= entry_map(v).insert(key, w[at].1@));
}

proof fn lemma_added(v: Seq<(String, String)>, w: Seq<(String, String)>, at: int)
    requires
        0 <= at <= v.len(),
        w == v.insert(at, w[at]),
        sorted(entry_keys(v)),
        sorted(entry_keys(w)),
        !entry_keys(v).contains(w[at].0@),
    ensures
        entry_map(w) == entry_map(v).insert(w[at].0@, w[at].1@),
{
    let key = w[at].0@;
    let kv = entry_keys(v);
    let kw = entry_keys(w);
    lemma_entry(w, at);
    assert forall|k: Seq<char>| kw.contains(k) <==> (kv.contains(k) || k == key) by {
        if kw.contains(k) {
            let i = choose|i: int| 0 <= i < kw.len() && kw[i] == k;
            if i < at {
                assert(kv[i] == k);
            } else if i > at {
                assert(w[i] == v[i - 1]);
                assert(kv[i - 1] == k);
            }
        }
        if kv.contains(k) {
            let i = choose|i: int| 0 <= i < kv.len() && kv[i] == k;
            if i < at {
                assert(kw[i] == k);
            } else {
                assert(w[i + 1] == v[i]);
                assert(kw[i + 1] == k);
            }
        }
        assert(kw[at] == key);
    }
    assert forall|k: Seq<char>| kw.contains(k) implies entry_map(w)[k] == entry_map(v).insert(
        key,
        w[at].1@,
    )[k] by {
        let i = kw.index_of(k);
        assert(kw[i] == w[i].0@);
        lemma_entry(w, i);
        if i < at {
            assert(w[i] == v[i]);
            lemma_entry(v, i);
        } else if i > at {
            assert(w[i] == v[i - 1]);
            lemma_entry(v, i - 1);
        }
    }
    assert(entry_map(w) =~= entry_map(v).insert(key, w[at].1@));
}

} // verus!
