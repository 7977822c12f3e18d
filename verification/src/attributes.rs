//! Ordered string-to-string mappings with unique keys, and the layering of
//! one mapping over another.

use vstd::prelude::*;
use vstd::string::*;
use crate::parser::Node;
use crate::text::str_eq;

verus! {

/// The mathematical value of an ordered mapping: its entries in order.
pub type Pairs = Seq<(Seq<char>, Seq<char>)>;

/// The entries of an executable list of pairs, each string by its characters.
pub open spec fn pairs_of(v: Seq<(String, String)>) -> Pairs {
    Seq::new(v.len(), |i: int| (v[i].0@, v[i].1@))
}

/// No key occurs twice.
pub open spec fn unique_keys(p: Pairs) -> bool {
    forall|i: int, j: int| 0 <= i < j < p.len() ==> (#[trigger] p[i]).0 != (#[trigger] p[j]).0
}

/// Some entry has the key.
pub open spec fn has_key(p: Pairs, key: Seq<char>) -> bool {
    exists|i: int| 0 <= i < p.len() && (#[trigger] p[i]).0 == key
}

/// The value of the first entry with the key.
pub open spec fn lookup(p: Pairs, key: Seq<char>) -> Option<Seq<char>>
    decreases p.len(),
{
    if p.len() == 0 {
        None
    } else if p[0].0 == key {
        Some(p[0].1)
    } else {
        lookup(p.drop_first(), key)
    }
}

/// The mapping with `key` set to `value`: the first entry with the key
/// keeps its place and takes the value; without such an entry a new one is
/// added at the end.
pub open spec fn upsert(p: Pairs, key: Seq<char>, value: Seq<char>) -> Pairs
    decreases p.len(),
{
    if p.len() == 0 {
        seq![(key, value)]
    } else if p[0].0 == key {
        p.update(0, (key, value))
    } else {
        seq![p[0]] + upsert(p.drop_first(), key, value)
    }
}

/// `over` layered on `base`: each entry of `over` is set in turn, so that
/// `over` wins where both have a key.
pub open spec fn merge(base: Pairs, over: Pairs) -> Pairs
    decreases over.len(),
{
    if over.len() == 0 {
        base
    } else {
        upsert(merge(base, over.drop_last()), over.last().0, over.last().1)
    }
}

/// Where no entry before `i` has the key and entry `i` has it, setting the
/// key replaces entry `i`.
pub proof fn lemma_upsert_found(p: Pairs, key: Seq<char>, value: Seq<char>, i: int)
    requires
        0 <= i < p.len(),
        forall|j: int| 0 <= j < i ==> (#[trigger] p[j]).0 != key,
        p[i].0 == key,
    ensures
        upsert(p, key, value) == p.update(i, (key, value)),
        lookup(p, key) == Some(p[i].1),
    decreases i,
{
    if i > 0 {
        let t = p.drop_first();
        assert forall|j: int| 0 <= j < i - 1 implies (#[trigger] t[j]).0 != key by {
            assert(t[j] == p[j + 1]);
        }
        lemma_upsert_found(t, key, value, i - 1);
        assert(seq![p[0]] + t.update(i - 1, (key, value)) =~= p.update(i, (key, value)));
    }
}

/// Where no entry has the key, setting it adds an entry at the end.
pub proof fn lemma_upsert_absent(p: Pairs, key: Seq<char>, value: Seq<char>)
    requires
        forall|j: int| 0 <= j < p.len() ==> (#[trigger] p[j]).0 != key,
    ensures
        upsert(p, key, value) == p.push((key, value)),
        lookup(p, key) is None,
    decreases p.len(),
{
    if p.len() > 0 {
        let t = p.drop_first();
        assert forall|j: int| 0 <= j < t.len() implies (#[trigger] t[j]).0 != key by {
            assert(t[j] == p[j + 1]);
        }
        lemma_upsert_absent(t, key, value);
        assert(seq![p[0]] + t.push((key, value)) =~= p.push((key, value)));
    } else {
        assert(seq![(key, value)] =~= p.push((key, value)));
    }
}

/// After a key is set, a lookup of that key gives the value set, and a
/// lookup of any other key gives what it gave before.
pub proof fn lemma_lookup_upsert(p: Pairs, key: Seq<char>, value: Seq<char>, other: Seq<char>)
    ensures
        lookup(upsert(p, key, value), key) == Some(value),
        other != key ==> lookup(upsert(p, key, value), other) == lookup(p, other),
    decreases p.len(),
{
    if p.len() > 0 && p[0].0 != key {
        let t = p.drop_first();
        lemma_lookup_upsert(t, key, value, other);
        let r = upsert(p, key, value);
        assert(r[0] == p[0]);
        assert(r.drop_first() =~= upsert(t, key, value));
    } else if p.len() > 0 {
        let r = upsert(p, key, value);
        assert(r.drop_first() =~= p.drop_first());
    } else {
        let r = upsert(p, key, value);
        assert(r.drop_first().len() == 0);
        assert(lookup(r.drop_first(), other) is None);
    }
}

/// Setting a key neither drops nor reorders entries: the result is as long
/// as before, or one longer, and every earlier key is still at its place.
pub proof fn lemma_upsert_shape(p: Pairs, key: Seq<char>, value: Seq<char>)
    ensures
        has_key(p, key) ==> upsert(p, key, value).len() == p.len(),
        !has_key(p, key) ==> upsert(p, key, value) == p.push((key, value)),
        upsert(p, key, value).len() >= p.len(),
        forall|i: int| 0 <= i < p.len() ==> (#[trigger] upsert(p, key, value)[i]).0 == p[i].0,
    decreases p.len(),
{
    if p.len() == 0 {
        assert(seq![(key, value)] =~= p.push((key, value)));
    } else if p[0].0 == key {
        assert(has_key(p, key));
    } else {
        let t = p.drop_first();
        lemma_upsert_shape(t, key, value);
        let r = upsert(p, key, value);
        if has_key(t, key) {
            let i = choose|i: int| 0 <= i < t.len() && (#[trigger] t[i]).0 == key;
            assert(p[i + 1] == t[i]);
        }
        if has_key(p, key) {
            let i = choose|i: int| 0 <= i < p.len() && (#[trigger] p[i]).0 == key;
            assert(t[i - 1] == p[i]);
        } else {
            assert(seq![p[0]] + t.push((key, value)) =~= p.push((key, value)));
        }
        assert forall|i: int| 0 <= i < p.len() implies (#[trigger] r[i]).0 == p[i].0 by {
            if i > 0 {
                assert(r[i] == upsert(t, key, value)[i - 1]);
                assert(t[i - 1] == p[i]);
            }
        }
    }
}

/// Setting a key in a mapping with unique keys leaves the keys unique.
pub proof fn lemma_upsert_unique(p: Pairs, key: Seq<char>, value: Seq<char>)
    requires
        unique_keys(p),
    ensures
        unique_keys(upsert(p, key, value)),
{
    lemma_upsert_shape(p, key, value);
    let r = upsert(p, key, value);
    if has_key(p, key) {
        assert forall|i: int, j: int| 0 <= i < j < r.len() implies (#[trigger] r[i]).0 != (
        #[trigger] r[j]).0 by {
            assert(r[i].0 == p[i].0);
            assert(r[j].0 == p[j].0);
        }
    } else {
        assert forall|i: int, j: int| 0 <= i < j < r.len() implies (#[trigger] r[i]).0 != (
        #[trigger] r[j]).0 by {
            if j < p.len() {
                assert(r[i] == p[i] && r[j] == p[j]);
            } else {
                assert(r[i] == p[i]);
            }
        }
    }
}

/// Layering an empty mapping over another yields that other, unchanged.
pub proof fn lemma_merge_empty(base: Pairs)
    ensures
        merge(base, Seq::empty()) == base,
{
}

/// Layering a mapping with unique keys over the empty mapping yields that
/// mapping, entry for entry.
pub proof fn lemma_merge_onto_empty(over: Pairs)
    requires
        unique_keys(over),
    ensures
        merge(Pairs::empty(), over) == over,
    decreases over.len(),
{
    if over.len() > 0 {
        let rest = over.drop_last();
        assert forall|i: int, j: int| 0 <= i < j < rest.len() implies (#[trigger] rest[i]).0 != (
        #[trigger] rest[j]).0 by {
            assert(rest[i] == over[i] && rest[j] == over[j]);
        }
        lemma_merge_onto_empty(rest);
        assert forall|j: int| 0 <= j < rest.len() implies (#[trigger] rest[j]).0
            != over.last().0 by {
            assert(rest[j] == over[j]);
            assert(over[over.len() - 1] == over.last());
        }
        lemma_upsert_absent(rest, over.last().0, over.last().1);
        assert(rest.push((over.last().0, over.last().1)) =~= over);
    }
}

/// Layering keeps the keys unique.
pub proof fn lemma_merge_unique(base: Pairs, over: Pairs)
    requires
        unique_keys(base),
    ensures
        unique_keys(merge(base, over)),
    decreases over.len(),
{
    if over.len() > 0 {
        lemma_merge_unique(base, over.drop_last());
        lemma_upsert_unique(merge(base, over.drop_last()), over.last().0, over.last().1);
    }
}

/// A key that the upper layer lacks keeps the value of the lower layer, and
/// a key that the lower layer has is never lost.
pub proof fn lemma_merge_lookup(base: Pairs, over: Pairs, key: Seq<char>)
    ensures
        !has_key(over, key) ==> lookup(merge(base, over), key) == lookup(base, key),
        lookup(base, key) is Some ==> lookup(merge(base, over), key) is Some,
        has_key(over, key) ==> lookup(merge(base, over), key) is Some,
    decreases over.len(),
{
    if over.len() > 0 {
        let rest = over.drop_last();
        lemma_merge_lookup(base, rest, key);
        lemma_lookup_upsert(merge(base, rest), over.last().0, over.last().1, key);
        if has_key(rest, key) {
            let i = choose|i: int| 0 <= i < rest.len() && (#[trigger] rest[i]).0 == key;
            assert(over[i] == rest[i]);
        }
        if has_key(over, key) && over.last().0 != key {
            let i = choose|i: int| 0 <= i < over.len() && (#[trigger] over[i]).0 == key;
            assert(rest[i] == over[i]);
        }
        if !has_key(over, key) {
            assert(over[over.len() - 1].0 != key);
        }
    }
}

/// An ordered string-to-string mapping in which no key occurs twice.
#[derive(Debug)]
pub struct Attributes {
    entries: Vec<(String, String)>,
}

impl View for Attributes {
    type V = Pairs;

    closed spec fn view(&self) -> Pairs {
        pairs_of(self.entries@)
    }
}

impl Attributes {
    #[verifier::type_invariant]
    spec fn keys_unique(self) -> bool {
        unique_keys(pairs_of(self.entries@))
    }

    /// The empty mapping.
    pub fn new() -> (r: Attributes)
        ensures
            r@ == Pairs::empty(),
    {
        let r = Attributes { entries: Vec::new() };
        assert(r@ =~= Pairs::empty());
        r
    }

    /// The number of entries.
    pub fn len(&self) -> (r: usize)
        ensures
            r == self@.len(),
    {
        self.entries.len()
    }

    /// The key of entry `i`.
    pub fn key_at(&self, i: usize) -> (r: &String)
        requires
            i < self@.len(),
        ensures
            r@ == self@[i as int].0,
    {
        &self.entries[i].0
    }

    /// The value of entry `i`.
    pub fn value_at(&self, i: usize) -> (r: &String)
        requires
            i < self@.len(),
        ensures
            r@ == self@[i as int].1,
    {
        &self.entries[i].1
    }

    /// The place of the entry with the key, if there is one.
    fn position(&self, key: &str) -> (r: Option<usize>)
        ensures
            match r {
                Some(i) => i < self@.len() && self@[i as int].0 == key@ && forall|j: int|
                    0 <= j < i ==> (#[trigger] self@[j]).0 != key@,
                None => forall|j: int| 0 <= j < self@.len() ==> (#[trigger] self@[j]).0 != key@,
            },
    {
        let mut i: usize = 0;
        while i < self.entries.len()
            invariant
                i <= self.entries.len(),
                forall|j: int| 0 <= j < i ==> (#[trigger] self@[j]).0 != key@,
            decreases self.entries.len() - i,
        {
            if str_eq(self.entries[i].0.as_str(), key) {
                return Some(i);
            }
            i += 1;
        }
        None
    }

    /// The value that the key maps to, if any.
    pub fn get(&self, key: &str) -> (r: Option<&String>)
        ensures
            match r {
                Some(v) => lookup(self@, key@) == Some(v@),
                None => lookup(self@, key@) is None,
            },
    {
        match self.position(key) {
            Some(i) => {
                proof {
                    lemma_upsert_found(self@, key@, key@, i as int);
                }
                Some(&self.entries[i].1)
            },
            None => {
                proof {
                    lemma_upsert_absent(self@, key@, key@);
                }
                None
            },
        }
    }

    /// This mapping with `key` mapped to `value`. An entry that has the key
    /// keeps its place and takes the value; otherwise a new entry is added at
    /// the end.
    pub fn add(self, key: &str, value: &str) -> (r: Attributes)
        ensures
            r@ == upsert(self@, key@, value@),
            unique_keys(r@),
    {
        proof {
            use_type_invariant(&self);
            lemma_upsert_unique(self@, key@, value@);
        }
        let found = self.position(key);
        let mut entries = self.entries;
        match found {
            Some(i) => {
                proof {
                    lemma_upsert_found(self@, key@, value@, i as int);
                }
                let k = entries[i].0.clone();
                entries.set(i, (k, value.to_owned()));
                assert(pairs_of(entries@) =~= self@.update(i as int, (key@, value@)));
            },
            None => {
                proof {
                    lemma_upsert_absent(self@, key@, value@);
                }
                entries.push((key.to_owned(), value.to_owned()));
                assert(pairs_of(entries@) =~= self@.push((key@, value@)));
            },
        }
        Attributes { entries }
    }

    /// This mapping with `over` layered on it: `over` wins where both have a
    /// key.
    pub fn merge(self, over: &Attributes) -> (r: Attributes)
        ensures
            r@ == merge(self@, over@),
            unique_keys(r@),
    {
        proof {
            use_type_invariant(&self);
        }
        let mut r = self;
        let mut i: usize = 0;
        while i < over.len()
            invariant
                i <= over@.len(),
                r@ == merge(self@, over@.take(i as int)),
                unique_keys(r@),
            decreases over@.len() - i,
        {
            proof {
                assert(over@.take(i + 1).drop_last() =~= over@.take(i as int));
            }
            r = r.add(over.key_at(i).as_str(), over.value_at(i).as_str());
            i += 1;
        }
        assert(over@.take(i as int) =~= over@);
        r
    }

    /// This mapping with the attributes of `node` layered on it: the node
    /// wins where both have a key.
    pub fn concat(self, node: &Node) -> (r: Attributes)
        ensures
            r@ == merge(self@, pairs_of(node.attributes@)),
            unique_keys(r@),
    {
        proof {
            use_type_invariant(&self);
        }
        let ghost over = pairs_of(node.attributes@);
        let mut r = self;
        let mut i: usize = 0;
        while i < node.attributes.len()
            invariant
                i <= node.attributes.len(),
                over == pairs_of(node.attributes@),
                r@ == merge(self@, over.take(i as int)),
                unique_keys(r@),
            decreases node.attributes.len() - i,
        {
            proof {
                assert(over.take(i + 1).drop_last() =~= over.take(i as int));
            }
            r = r.add(node.attributes[i].0.as_str(), node.attributes[i].1.as_str());
            i += 1;
        }
        assert(over.take(i as int) =~= over);
        r
    }
}

impl Clone for Attributes {
    fn clone(&self) -> (r: Attributes)
        ensures
            r@ == self@,
    {
        proof {
            use_type_invariant(self);
        }
        let mut entries: Vec<(String, String)> = Vec::new();
        let mut i: usize = 0;
        while i < self.entries.len()
            invariant
                i <= self.entries.len(),
                entries@.len() == i,
                forall|j: int| 0 <= j < i ==> entries@[j] == self.entries@[j],
            decreases self.entries.len() - i,
        {
            entries.push((self.entries[i].0.clone(), self.entries[i].1.clone()));
            i += 1;
        }
        assert(entries@ =~= self.entries@);
        Attributes { entries }
    }
}

impl Default for Attributes {
    fn default() -> (r: Attributes)
        ensures
            r@ == Pairs::empty(),
    {
        Attributes::new()
    }
}

} // verus!
