//! The extension slot: an ordered key/value side-channel carried by every
//! entity, letting vendor data travel with a record without a schema change.

use vstd::prelude::*;
use crate::json::{Json, JVal, pairs_view, obj_lookup, obj_has_key, str_eq};

verus! {

/// Upsert on an ordered member list: a present key keeps its position and
/// takes the new value; an absent key is appended.
pub open spec fn upsert(s: Seq<(Seq<char>, JVal)>, key: Seq<char>, value: JVal) -> Seq<
    (Seq<char>, JVal),
>
    decreases s.len(),
{
    if s.len() == 0 {
        seq![(key, value)]
    } else if s[0].0 == key {
        seq![(key, value)] + s.drop_first()
    } else {
        seq![s[0]] + upsert(s.drop_first(), key, value)
    }
}

/// Removal on an ordered member list: the first entry with `key` leaves.
pub open spec fn remove_key(s: Seq<(Seq<char>, JVal)>, key: Seq<char>) -> Seq<(Seq<char>, JVal)>
    decreases s.len(),
{
    if s.len() == 0 {
        s
    } else if s[0].0 == key {
        s.drop_first()
    } else {
        seq![s[0]] + remove_key(s.drop_first(), key)
    }
}

/// No key occurs twice in the member list.
pub open spec fn unique_keys(s: Seq<(Seq<char>, JVal)>) -> bool {
    forall|i: int, j: int| 0 <= i < j < s.len() ==> s[i].0 != s[j].0
}

/// An entity's extension slot: a mapping from string key to arbitrary
/// JSON value, insertion order preserved, keys unique.
pub struct Extras {
    items: Vec<(String, Json)>,
}

impl View for Extras {
    type V = Seq<(Seq<char>, JVal)>;

    closed spec fn view(&self) -> Seq<(Seq<char>, JVal)> {
        pairs_view(self.items@)
    }
}

impl Extras {
    /// The slot's structural invariant: no key occurs twice.
    pub open spec fn wf(&self) -> bool {
        unique_keys(self@)
    }

    /// An empty slot.
    pub fn new() -> (r: Extras)
        ensures
            r@ == Seq::<(Seq<char>, JVal)>::empty(),
            r.wf(),
    {
        let r = Extras { items: Vec::new() };
        proof {
            assert(r@ =~= Seq::<(Seq<char>, JVal)>::empty());
        }
        r
    }

    /// How many keys the slot holds.
    pub fn len(&self) -> (n: usize)
        ensures
            n == self@.len(),
    {
        self.items.len()
    }

    /// Whether the slot is empty.
    pub fn is_empty(&self) -> (r: bool)
        ensures
            r == (self@.len() == 0),
    {
        self.items.len() == 0
    }

    /// The members in insertion order, for encoding.
    pub fn members(&self) -> (r: &Vec<(String, Json)>)
        ensures
            pairs_view(r@) == self@,
    {
        &self.items
    }

    /// The value at `key`, if one is present.
    pub fn get<'a>(&'a self, key: &str) -> (r: Option<&'a Json>)
        ensures
            match r {
                Some(v) => obj_lookup(self@, key@) == Some(v@),
                None => obj_lookup(self@, key@) is None,
            },
    {
        Json::lookup(&self.items, key)
    }

    /// Inserts an element into the slot, replacing and returning the value
    /// previously at `key`, if one was present.
    pub fn insert(&mut self, key: String, value: Json) -> (prev: Option<Json>)
        requires
            old(self).wf(),
        ensures
            final(self)@ == upsert(old(self)@, key@, value@),
            final(self).wf(),
            match prev {
                Some(v) => obj_lookup(old(self)@, key@) == Some(v@),
                None => obj_lookup(old(self)@, key@) is None,
            },
    {
        let ghost s0 = self@;
        let mut i: usize = 0;
        proof {
            lemma_upsert_prefix(s0, key@, value@);
        }
        while i < self.items.len()
            invariant
                0 <= i <= self.items.len(),
                s0 == old(self)@,
                self@ == s0,
                self.wf(),
                forall|j: int| 0 <= j < i ==> s0[j].0 != key@,
                upsert(s0, key@, value@) == s0.take(i as int) + upsert(
                    s0.skip(i as int),
                    key@,
                    value@,
                ),
                obj_lookup(s0, key@) == obj_lookup(s0.skip(i as int), key@),
            decreases self.items.len() - i,
        {
            proof {
                assert(s0.skip(i as int)[0] == s0[i as int]);
                assert(s0[i as int] == (self.items[i as int].0@, self.items[i as int].1@));
            }
            if str_eq(self.items[i].0.as_str(), key.as_str()) {
                let old_pair = self.items.remove(i);
                self.items.insert(i, (key, value));
                proof {
                    assert(seq![(key@, value@)] + s0.skip(i as int).drop_first() =~= upsert(
                        s0.skip(i as int),
                        key@,
                        value@,
                    ));
                    assert(self@ =~= s0.take(i as int) + (seq![(key@, value@)] + s0.skip(
                        i as int,
                    ).drop_first()));
                    assert(self@ == upsert(s0, key@, value@));
                    lemma_upsert_unique(s0, key@, value@);
                }
                return Some(old_pair.1);
            }
            proof {
                assert(s0.skip(i as int).drop_first() =~= s0.skip(i + 1));
                assert(seq![s0[i as int]] + upsert(s0.skip(i + 1), key@, value@) == upsert(
                    s0.skip(i as int),
                    key@,
                    value@,
                ));
                assert(s0.take(i as int) + (seq![s0[i as int]] + upsert(
                    s0.skip(i + 1),
                    key@,
                    value@,
                )) =~= s0.take(i + 1) + upsert(s0.skip(i + 1), key@, value@));
            }
            i += 1;
        }
        proof {
            assert(s0.skip(i as int).len() == 0);
            assert(upsert(s0.skip(i as int), key@, value@) =~= seq![(key@, value@)]);
        }
        self.items.push((key, value));
        proof {
            assert(self@ =~= s0.take(s0.len() as int) + seq![(key@, value@)]);
            assert(self@ == upsert(s0, key@, value@));
            lemma_upsert_unique(s0, key@, value@);
        }
        None
    }

    /// Removes the value at `key`, returning it if one was present.
    pub fn remove(&mut self, key: &str) -> (prev: Option<Json>)
        requires
            old(self).wf(),
        ensures
            final(self)@ == remove_key(old(self)@, key@),
            final(self).wf(),
            match prev {
                Some(v) => obj_lookup(old(self)@, key@) == Some(v@),
                None => obj_lookup(old(self)@, key@) is None,
            },
    {
        let ghost s0 = self@;
        let mut i: usize = 0;
        proof {
            lemma_remove_prefix(s0, key@);
        }
        while i < self.items.len()
            invariant
                0 <= i <= self.items.len(),
                s0 == old(self)@,
                self@ == s0,
                self.wf(),
                forall|j: int| 0 <= j < i ==> s0[j].0 != key@,
                remove_key(s0, key@) == s0.take(i as int) + remove_key(s0.skip(i as int), key@),
                obj_lookup(s0, key@) == obj_lookup(s0.skip(i as int), key@),
            decreases self.items.len() - i,
        {
            proof {
                assert(s0.skip(i as int)[0] == s0[i as int]);
                assert(s0[i as int] == (self.items[i as int].0@, self.items[i as int].1@));
            }
            if str_eq(self.items[i].0.as_str(), key) {
                let old_pair = self.items.remove(i);
                proof {
                    assert(self@ =~= s0.take(i as int) + s0.skip(i as int).drop_first());
                    assert(self@ == remove_key(s0, key@));
                    lemma_remove_unique(s0, key@);
                }
                return Some(old_pair.1);
            }
            proof {
                assert(s0.skip(i as int).drop_first() =~= s0.skip(i + 1));
                assert(seq![s0[i as int]] + remove_key(s0.skip(i + 1), key@) == remove_key(
                    s0.skip(i as int),
                    key@,
                ));
                assert(s0.take(i as int) + (seq![s0[i as int]] + remove_key(
                    s0.skip(i + 1),
                    key@,
                )) =~= s0.take(i + 1) + remove_key(s0.skip(i + 1), key@));
            }
            i += 1;
        }
        proof {
            assert(s0.skip(i as int).len() == 0);
            assert(remove_key(s0.skip(i as int), key@) =~= Seq::<(Seq<char>, JVal)>::empty());
            assert(remove_key(s0, key@) =~= s0);
        }
        None
    }
}

proof fn lemma_upsert_prefix(s: Seq<(Seq<char>, JVal)>, key: Seq<char>, value: JVal)
    ensures
        upsert(s, key, value) == s.take(0) + upsert(s.skip(0), key, value),
        obj_lookup(s, key) == obj_lookup(s.skip(0), key),
{
    assert(s.skip(0) =~= s);
    assert(s.take(0) + upsert(s, key, value) =~= upsert(s, key, value));
}

proof fn lemma_remove_prefix(s: Seq<(Seq<char>, JVal)>, key: Seq<char>)
    ensures
        remove_key(s, key) == s.take(0) + remove_key(s.skip(0), key),
        obj_lookup(s, key) == obj_lookup(s.skip(0), key),
{
    assert(s.skip(0) =~= s);
    assert(s.take(0) + remove_key(s, key) =~= remove_key(s, key));
}

/// Upsert keeps keys unique and acts as `insert` on the mapping view.
pub proof fn lemma_upsert_unique(s: Seq<(Seq<char>, JVal)>, key: Seq<char>, value: JVal)
    requires
        unique_keys(s),
    ensures
        unique_keys(upsert(s, key, value)),
        obj_lookup(upsert(s, key, value), key) == Some(value),
    decreases s.len(),
{
    if s.len() == 0 {
    } else if s[0].0 == key {
        let r = seq![(key, value)] + s.drop_first();
        assert forall|i: int, j: int| 0 <= i < j < r.len() implies r[i].0 != r[j].0 by {
            if i == 0 {
                assert(r[j] == s[j]);
                assert(s[0].0 != s[j].0);
            } else {
                assert(r[i] == s[i] && r[j] == s[j]);
            }
        }
    } else {
        assert(unique_keys(s.drop_first())) by {
            assert(forall|i: int, j: int|
                0 <= i < j < s.drop_first().len() ==> s.drop_first()[i] == s[i + 1]
                    && s.drop_first()[j] == s[j + 1]);
        }
        lemma_upsert_unique(s.drop_first(), key, value);
        lemma_upsert_keys(s.drop_first(), key, value);
        let rest = upsert(s.drop_first(), key, value);
        let r = seq![s[0]] + rest;
        assert forall|i: int, j: int| 0 <= i < j < r.len() implies r[i].0 != r[j].0 by {
            if i == 0 {
                assert(r[j] == rest[j - 1]);
                assert(rest[j - 1].0 == key || obj_has_key(s.drop_first(), rest[j - 1].0));
                if rest[j - 1].0 != key {
                    lemma_lookup_index(s.drop_first(), rest[j - 1].0);
                    let m = choose|m: int|
                        0 <= m < s.drop_first().len() && s.drop_first()[m].0 == rest[j - 1].0;
                    assert(s.drop_first()[m] == s[m + 1]);
                    assert(s[0].0 != s[m + 1].0);
                }
            } else {
                assert(r[i] == rest[i - 1] && r[j] == rest[j - 1]);
            }
        }
        assert(r.drop_first() =~= rest);
        assert(obj_lookup(r, key) == obj_lookup(rest, key));
    }
}

/// Every key of an upserted list is the new key or one of the old keys.
proof fn lemma_upsert_keys(s: Seq<(Seq<char>, JVal)>, key: Seq<char>, value: JVal)
    ensures
        forall|j: int|
            0 <= j < upsert(s, key, value).len() ==> (upsert(s, key, value)[j].0 == key
                || obj_has_key(s, upsert(s, key, value)[j].0)),
    decreases s.len(),
{
    if s.len() == 0 {
    } else if s[0].0 == key {
        let r = seq![(key, value)] + s.drop_first();
        assert forall|j: int| 0 <= j < r.len() implies (r[j].0 == key || obj_has_key(
            s,
            r[j].0,
        )) by {
            if j > 0 {
                assert(r[j] == s[j]);
                lemma_index_lookup(s, j);
            }
        }
    } else {
        lemma_upsert_keys(s.drop_first(), key, value);
        let rest = upsert(s.drop_first(), key, value);
        let r = seq![s[0]] + rest;
        assert forall|j: int| 0 <= j < r.len() implies (r[j].0 == key || obj_has_key(
            s,
            r[j].0,
        )) by {
            if j == 0 {
                lemma_index_lookup(s, 0);
            } else {
                assert(r[j] == rest[j - 1]);
                if rest[j - 1].0 != key {
                    assert(obj_has_key(s.drop_first(), rest[j - 1].0));
                    if s[0].0 != rest[j - 1].0 {
                        assert(obj_lookup(s, rest[j - 1].0) == obj_lookup(
                            s.drop_first(),
                            rest[j - 1].0,
                        ));
                    }
                }
            }
        }
    }
}

/// A key at some index is found by lookup.
pub proof fn lemma_index_lookup(s: Seq<(Seq<char>, JVal)>, j: int)
    requires
        0 <= j < s.len(),
    ensures
        obj_has_key(s, s[j].0),
    decreases s.len(),
{
    if s[0].0 == s[j].0 {
    } else {
        lemma_index_lookup(s.drop_first(), j - 1);
    }
}

/// A key that lookup finds occurs at some index.
pub proof fn lemma_lookup_index(s: Seq<(Seq<char>, JVal)>, key: Seq<char>)
    requires
        obj_has_key(s, key),
    ensures
        exists|j: int| 0 <= j < s.len() && s[j].0 == key,
    decreases s.len(),
{
    if s.len() == 0 {
    } else if s[0].0 == key {
        assert(s[0].0 == key);
    } else {
        lemma_lookup_index(s.drop_first(), key);
        let j = choose|j: int| 0 <= j < s.drop_first().len() && s.drop_first()[j].0 == key;
        assert(s[j + 1].0 == key);
    }
}

/// Removal keeps keys unique and drops the key from the mapping view.
pub proof fn lemma_remove_unique(s: Seq<(Seq<char>, JVal)>, key: Seq<char>)
    requires
        unique_keys(s),
    ensures
        unique_keys(remove_key(s, key)),
        obj_lookup(remove_key(s, key), key) is None,
    decreases s.len(),
{
    if s.len() == 0 {
    } else if s[0].0 == key {
        let r = s.drop_first();
        assert(unique_keys(r));
        if obj_has_key(r, key) {
            lemma_lookup_index(r, key);
            let j = choose|j: int| 0 <= j < r.len() && r[j].0 == key;
            assert(s[j + 1].0 == s[0].0);
            assert(false);
        }
    } else {
        assert(unique_keys(s.drop_first()));
        lemma_remove_unique(s.drop_first(), key);
        lemma_remove_keys(s.drop_first(), key);
        let rest = remove_key(s.drop_first(), key);
        let r = seq![s[0]] + rest;
        assert forall|i: int, j: int| 0 <= i < j < r.len() implies r[i].0 != r[j].0 by {
            if i == 0 {
                assert(r[j] == rest[j - 1]);
                assert(obj_has_key(s.drop_first(), rest[j - 1].0));
                lemma_lookup_index(s.drop_first(), rest[j - 1].0);
                let m = choose|m: int|
                    0 <= m < s.drop_first().len() && s.drop_first()[m].0 == rest[j - 1].0;
                assert(s.drop_first()[m] == s[m + 1]);
                assert(s[0].0 != s[m + 1].0);
            } else {
                assert(r[i] == rest[i - 1] && r[j] == rest[j - 1]);
            }
        }
        assert(r.drop_first() =~= rest);
        assert(obj_lookup(r, key) == obj_lookup(rest, key));
    }
}

/// Every key of a list after removal was a key of the list before.
proof fn lemma_remove_keys(s: Seq<(Seq<char>, JVal)>, key: Seq<char>)
    ensures
        forall|j: int|
            0 <= j < remove_key(s, key).len() ==> obj_has_key(s, remove_key(s, key)[j].0),
    decreases s.len(),
{
    if s.len() == 0 {
    } else if s[0].0 == key {
        let r = s.drop_first();
        assert forall|j: int| 0 <= j < r.len() implies obj_has_key(s, r[j].0) by {
            assert(r[j] == s[j + 1]);
            lemma_index_lookup(s, j + 1);
        }
    } else {
        lemma_remove_keys(s.drop_first(), key);
        let rest = remove_key(s.drop_first(), key);
        let r = seq![s[0]] + rest;
        assert forall|j: int| 0 <= j < r.len() implies obj_has_key(s, r[j].0) by {
            if j == 0 {
                lemma_index_lookup(s, 0);
            } else {
                assert(r[j] == rest[j - 1]);
                assert(obj_has_key(s.drop_first(), rest[j - 1].0));
                if s[0].0 != rest[j - 1].0 {
                    assert(obj_lookup(s, rest[j - 1].0) == obj_lookup(
                        s.drop_first(),
                        rest[j - 1].0,
                    ));
                }
            }
        }
    }
}

/// The extension-slot capability every entity exposes uniformly.
pub trait Extra {
    /// The entity's extension slot, as its model.
    spec fn extra_view(&self) -> Seq<(Seq<char>, JVal)>;

    /// Whether the entity's slot satisfies its invariant.
    spec fn extra_wf(&self) -> bool;

    /// Inserts an element into the entity's extension slot.
    /// Returns the value that it replaced, if one was present, or None if not.
    fn insert_extra(&mut self, key: String, value: Json) -> (prev: Option<Json>)
        requires
            old(self).extra_wf(),
        ensures
            final(self).extra_view() == upsert(old(self).extra_view(), key@, value@),
            final(self).extra_wf(),
            match prev {
                Some(v) => obj_lookup(old(self).extra_view(), key@) == Some(v@),
                None => obj_lookup(old(self).extra_view(), key@) is None,
            },
    ;

    /// Removes the value at the provided key from the entity's extension slot.
    /// Returns the value if one was present, or None if not.
    fn remove_extra(&mut self, key: &str) -> (prev: Option<Json>)
        requires
            old(self).extra_wf(),
        ensures
            final(self).extra_view() == remove_key(old(self).extra_view(), key@),
            final(self).extra_wf(),
            match prev {
                Some(v) => obj_lookup(old(self).extra_view(), key@) == Some(v@),
                None => obj_lookup(old(self).extra_view(), key@) is None,
            },
    ;
}


/// A key that no entry carries is not found.
pub proof fn lemma_lookup_absent(s: Seq<(Seq<char>, JVal)>, key: Seq<char>)
    requires
        forall|j: int| 0 <= j < s.len() ==> (#[trigger] s[j]).0 != key,
    ensures
        obj_lookup(s, key) is None,
    decreases s.len(),
{
    if s.len() > 0 {
        assert(s[0].0 != key);
        assert(forall|j: int|
            0 <= j < s.drop_first().len() ==> (#[trigger] s.drop_first()[j]) == s[j + 1]);
        lemma_lookup_absent(s.drop_first(), key);
    }
}

/// Upserting an absent key appends the entry.
pub proof fn lemma_upsert_absent(s: Seq<(Seq<char>, JVal)>, key: Seq<char>, value: JVal)
    requires
        forall|j: int| 0 <= j < s.len() ==> (#[trigger] s[j]).0 != key,
    ensures
        upsert(s, key, value) == s.push((key, value)),
    decreases s.len(),
{
    if s.len() == 0 {
        assert(upsert(s, key, value) =~= s.push((key, value)));
    } else {
        assert(forall|j: int|
            0 <= j < s.drop_first().len() ==> (#[trigger] s.drop_first()[j]) == s[j + 1]);
        lemma_upsert_absent(s.drop_first(), key, value);
        assert(seq![s[0]] + s.drop_first().push((key, value)) =~= s.push((key, value)));
    }
}

} // verus!
