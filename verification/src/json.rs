//! The wire value model: a JSON document tree with numbers kept as their
//! raw decimal tokens, so that every value round-trips exactly.

use vstd::prelude::*;
use vstd::string::StringSliceAdditionalSpecFns;

verus! {

/// An owned JSON value. Numbers are carried as their raw token text
/// (e.g. `"12"`, `"-3.5e2"`), which keeps the tree exact for any input.
/// Object member order is preserved.
pub enum Json {
    Null,
    Bool(bool),
    Num(String),
    Str(String),
    Arr(Vec<Json>),
    Obj(Vec<(String, Json)>),
}

/// The mathematical model of a [`Json`] tree: strings become `Seq<char>`,
/// vectors become `Seq`.
#[verifier::ext_equal]
pub enum JVal {
    Null,
    Bool(bool),
    Num(Seq<char>),
    Str(Seq<char>),
    Arr(Seq<JVal>),
    Obj(Seq<(Seq<char>, JVal)>),
}

/// The model of a JSON value.
pub open spec fn jval_of(j: Json) -> JVal
    decreases j,
{
    match j {
        Json::Null => JVal::Null,
        Json::Bool(b) => JVal::Bool(b),
        Json::Num(s) => JVal::Num(s@),
        Json::Str(s) => JVal::Str(s@),
        Json::Arr(items) => JVal::Arr(jvals_of(items@)),
        Json::Obj(pairs) => JVal::Obj(jpairs_of(pairs@)),
    }
}

/// The models of a list of JSON values.
pub open spec fn jvals_of(items: Seq<Json>) -> Seq<JVal>
    decreases items,
{
    if items.len() == 0 {
        Seq::empty()
    } else {
        seq![jval_of(items[0])] + jvals_of(items.drop_first())
    }
}

/// The models of an object's member list.
pub open spec fn jpairs_of(pairs: Seq<(String, Json)>) -> Seq<(Seq<char>, JVal)>
    decreases pairs,
{
    if pairs.len() == 0 {
        Seq::empty()
    } else {
        seq![(pairs[0].0@, jval_of(pairs[0].1))] + jpairs_of(pairs.drop_first())
    }
}

impl View for Json {
    type V = JVal;

    open spec fn view(&self) -> JVal {
        jval_of(*self)
    }
}

/// The model of a member list, member by member.
pub proof fn lemma_jpairs_of(pairs: Seq<(String, Json)>)
    ensures
        jpairs_of(pairs).len() == pairs.len(),
        forall|i: int|
            0 <= i < pairs.len() ==> jpairs_of(pairs)[i] == (pairs[i].0@, pairs[i].1@),
    decreases pairs.len(),
{
    if pairs.len() > 0 {
        lemma_jpairs_of(pairs.drop_first());
        assert forall|i: int|
            0 <= i < pairs.len() implies jpairs_of(pairs)[i] == (pairs[i].0@, pairs[i].1@) by {
            if i > 0 {
                assert(jpairs_of(pairs)[i] == jpairs_of(pairs.drop_first())[i - 1]);
                assert(pairs.drop_first()[i - 1] == pairs[i]);
            }
        }
    }
}

/// The model of a value list, value by value.
pub proof fn lemma_jvals_of(items: Seq<Json>)
    ensures
        jvals_of(items).len() == items.len(),
        forall|i: int| 0 <= i < items.len() ==> jvals_of(items)[i] == items[i]@,
    decreases items.len(),
{
    if items.len() > 0 {
        lemma_jvals_of(items.drop_first());
        assert forall|i: int| 0 <= i < items.len() implies jvals_of(items)[i] == items[i]@ by {
            if i > 0 {
                assert(jvals_of(items)[i] == jvals_of(items.drop_first())[i - 1]);
                assert(items.drop_first()[i - 1] == items[i]);
            }
        }
    }
}

/// The value at `key` in an object's member list: the first occurrence wins.
pub open spec fn obj_lookup(pairs: Seq<(Seq<char>, JVal)>, key: Seq<char>) -> Option<JVal>
    decreases pairs.len(),
{
    if pairs.len() == 0 {
        None
    } else if pairs[0].0 == key {
        Some(pairs[0].1)
    } else {
        obj_lookup(pairs.drop_first(), key)
    }
}

/// Whether `key` occurs in an object's member list.
pub open spec fn obj_has_key(pairs: Seq<(Seq<char>, JVal)>, key: Seq<char>) -> bool {
    obj_lookup(pairs, key) is Some
}

/// The model of an optional string field.
pub open spec fn view_opt_str(o: Option<String>) -> Option<Seq<char>> {
    match o {
        Some(s) => Some(s@),
        None => None,
    }
}

/// The model of a list of strings.
pub open spec fn view_strs(v: Seq<String>) -> Seq<Seq<char>> {
    v.map_values(|s: String| s@)
}

/// String comparison by contents: `r == (a@ == b@)`.
pub fn str_eq(a: &str, b: &str) -> (r: bool)
    ensures
        r == (a@ == b@),
{
    a.to_owned() == b.to_owned()
}

/// The member list of an object `Vec`, as its model.
pub open spec fn pairs_view(pairs: Seq<(String, Json)>) -> Seq<(Seq<char>, JVal)> {
    pairs.map_values(|p: (String, Json)| (p.0@, p.1@))
}

impl Json {
    /// Looks a key up in an object's member list (first occurrence wins).
    pub fn lookup<'a>(pairs: &'a Vec<(String, Json)>, key: &str) -> (r: Option<&'a Json>)
        ensures
            match r {
                Some(v) => obj_lookup(pairs_view(pairs@), key@) == Some(v@),
                None => obj_lookup(pairs_view(pairs@), key@) is None,
            },
    {
        let ghost m = pairs_view(pairs@);
        let mut i: usize = 0;
        proof {
            assert(m.skip(0) =~= m);
        }
        while i < pairs.len()
            invariant
                0 <= i <= pairs.len(),
                m == pairs_view(pairs@),
                obj_lookup(m, key@) == obj_lookup(m.skip(i as int), key@),
            decreases pairs.len() - i,
        {
            proof {
                assert(m.skip(i as int)[0] == m[i as int]);
                assert(m[i as int] == (pairs[i as int].0@, pairs[i as int].1@));
            }
            if str_eq(pairs[i].0.as_str(), key) {
                return Some(&pairs[i].1);
            }
            proof {
                assert(m.skip(i as int).drop_first() =~= m.skip(i + 1));
            }
            i += 1;
        }
        proof {
            assert(m.skip(i as int).len() == 0);
        }
        None
    }
}


impl Clone for Json {
    /// Deep copy: the copy has the same model as the original.
    #[verifier::loop_isolation(false)]
    fn clone(&self) -> (r: Json)
        ensures
            r@ == self@,
        decreases self,
    {
        match self {
            Json::Null => Json::Null,
            Json::Bool(b) => Json::Bool(*b),
            Json::Num(s) => Json::Num(s.clone()),
            Json::Str(s) => Json::Str(s.clone()),
            Json::Arr(items) => {
                let mut out: Vec<Json> = Vec::new();
                let mut i: usize = 0;
                while i < items.len()
                    invariant
                        0 <= i <= items.len(),
                        out@.len() == i,
                        forall|j: int| 0 <= j < i ==> out@[j]@ == items@[j]@,
                    decreases items.len() - i,
                {
                    out.push(items[i].clone());
                    i += 1;
                }
                let r = Json::Arr(out);
                proof {
                    lemma_jvals_of(out@);
                    lemma_jvals_of(items@);
                    assert(jvals_of(out@) =~= jvals_of(items@));
                }
                r
            },
            Json::Obj(pairs) => {
                let mut out: Vec<(String, Json)> = Vec::new();
                let mut i: usize = 0;
                while i < pairs.len()
                    invariant
                        0 <= i <= pairs.len(),
                        out@.len() == i,
                        forall|j: int|
                            0 <= j < i ==> out@[j].0@ == pairs@[j].0@ && out@[j].1@ == pairs@[j].1@,
                    decreases pairs.len() - i,
                {
                    let k = pairs[i].0.clone();
                    let v = pairs[i].1.clone();
                    out.push((k, v));
                    i += 1;
                }
                let r = Json::Obj(out);
                proof {
                    lemma_jpairs_of(out@);
                    lemma_jpairs_of(pairs@);
                    assert(jpairs_of(out@) =~= jpairs_of(pairs@));
                }
                r
            },
        }
    }
}

/// The characters of a string slice, as a vector.
pub fn str_chars(s: &str) -> (r: Vec<char>)
    ensures
        r@ == s@,
{
    let n = s.unicode_len();
    let mut out: Vec<char> = Vec::new();
    let mut i: usize = 0;
    while i < n
        invariant
            0 <= i <= n,
            n == s@.len(),
            out@ == s@.take(i as int),
        decreases n - i,
    {
        out.push(s.get_char(i));
        proof {
            assert(out@ =~= s@.take(i + 1));
        }
        i += 1;
    }
    proof {
        assert(s@.take(n as int) =~= s@);
    }
    out
}


/// The `String` whose characters are exactly `v`.
///
/// Relies on `core::iter::Iterator::collect` building a `String` from a
/// char iterator: the resulting string holds exactly those characters.
#[verifier::external_body]
pub fn chars_to_string(v: &Vec<char>) -> (r: String)
    ensures
        r@ == v@,
{
    v.iter().collect()
}


/// The models of a list of JSON values.
pub open spec fn jvals_view(items: Seq<Json>) -> Seq<JVal> {
    items.map_values(|j: Json| j@)
}

/// The view of an object or array value, written over its member list.
pub proof fn lemma_json_view(j: Json)
    ensures
        j matches Json::Obj(pairs) ==> j@ == JVal::Obj(pairs_view(pairs@)),
        j matches Json::Arr(items) ==> j@ == JVal::Arr(jvals_view(items@)),
{
    match j {
        Json::Obj(pairs) => {
            lemma_jpairs_of(pairs@);
            assert(jpairs_of(pairs@) =~= pairs_view(pairs@));
        },
        Json::Arr(items) => {
            lemma_jvals_of(items@);
            assert(jvals_of(items@) =~= jvals_view(items@));
        },
        _ => {},
    }
}


/// The UTF-8 reading of a byte sequence, if it is one.
///
/// Relies on `core::str::from_utf8`: it succeeds exactly on well-formed
/// UTF-8 — the byte sequences that are the encoding of some character
/// sequence — and the resulting slice's bytes are the input bytes.
#[verifier::external_body]
pub fn bytes_to_str(v: &[u8]) -> (r: Option<&str>)
    ensures
        r matches Some(s) ==> s.spec_bytes() == v@,
        (exists|cs: Seq<char>| v@ == vstd::utf8::encode_utf8(cs)) ==> r is Some,
{
    match core::str::from_utf8(v) {
        Ok(s) => Some(s),
        Err(_) => None,
    }
}

} // verus!
