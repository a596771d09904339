//! Shared pieces of the wire codec: how single fields encode to and
//! decode from members of a JSON object, how unknown sibling keys are
//! routed into an entity's extension slot, and the decode error type.

use vstd::prelude::*;
use crate::extra::{upsert, Extras};
use crate::json::{chars_to_string, obj_lookup, pairs_view, str_chars, str_eq, JVal, Json};
use crate::num::{dec_rep, dec_val, is_u64_token, is_usize_token, parse_dec_u64, push_dec_u64};

verus! {

/// A decode failure: the document is either not well-formed JSON, or a
/// field is missing or has the wrong shape, or the format gate rejected
/// the document's format tag.
#[derive(Debug)]
pub enum DecodeError {
    /// The text is not well-formed JSON; the position is in characters.
    Syntax(usize),
    /// The named required field is missing or a field has the wrong shape.
    Field(String),
    /// The document's `reportFormat` value differs from the fixed tag.
    Format(String),
}

impl DecodeError {
    /// A human-readable description; for a format mismatch it names the
    /// offending value.
    pub fn message(&self) -> (r: String)
        ensures
            self matches DecodeError::Syntax(p) ==> r@ == "malformed JSON text at character "@
                + dec_rep(p as nat),
            self matches DecodeError::Field(f) ==> r@ == "missing or mistyped field '"@ + f@
                + "'"@,
            self matches DecodeError::Format(v) ==> r@ == "unrecognized report format '"@ + v@
                + "'"@,
    {
        match self {
            DecodeError::Syntax(pos) => {
                let mut msg = String::new();
                msg.append("malformed JSON text at character ");
                let mut digits: Vec<char> = Vec::new();
                push_dec_u64(*pos as u64, &mut digits);
                let tail = chars_to_string(&digits);
                msg.append(tail.as_str());
                proof {
                    assert(msg@ =~= "malformed JSON text at character "@ + dec_rep(*pos as nat));
                }
                msg
            },
            DecodeError::Field(name) => {
                let mut msg = String::new();
                msg.append("missing or mistyped field '");
                msg.append(name.as_str());
                msg.append("'");
                proof {
                    assert(msg@ =~= "missing or mistyped field '"@ + name@ + "'"@);
                }
                msg
            },
            DecodeError::Format(value) => {
                let mut msg = String::new();
                msg.append("unrecognized report format '");
                msg.append(value.as_str());
                msg.append("'");
                proof {
                    assert(msg@ =~= "unrecognized report format '"@ + value@ + "'"@);
                }
                msg
            },
        }
    }
}

// --- spec: encoding single fields as object members ---

/// The member an optional string field contributes: none when absent.
pub open spec fn enc_opt_str(k: Seq<char>, v: Option<Seq<char>>) -> Seq<(Seq<char>, JVal)> {
    match v {
        Some(s) => seq![(k, JVal::Str(s))],
        None => Seq::empty(),
    }
}

/// The member an optional integer field contributes: none when absent.
pub open spec fn enc_opt_u64(k: Seq<char>, v: Option<u64>) -> Seq<(Seq<char>, JVal)> {
    match v {
        Some(n) => seq![(k, JVal::Num(dec_rep(n as nat)))],
        None => Seq::empty(),
    }
}

/// The member an optional size field contributes: none when absent.
pub open spec fn enc_opt_usize(k: Seq<char>, v: Option<usize>) -> Seq<(Seq<char>, JVal)> {
    match v {
        Some(n) => seq![(k, JVal::Num(dec_rep(n as nat)))],
        None => Seq::empty(),
    }
}

/// The member an optional boolean field contributes: none when absent.
pub open spec fn enc_opt_bool(k: Seq<char>, v: Option<bool>) -> Seq<(Seq<char>, JVal)> {
    match v {
        Some(b) => seq![(k, JVal::Bool(b))],
        None => Seq::empty(),
    }
}

/// The member a string-list field contributes: none when the list is
/// empty, else an array of strings.
pub open spec fn enc_strs(k: Seq<char>, v: Seq<Seq<char>>) -> Seq<(Seq<char>, JVal)> {
    if v.len() == 0 {
        Seq::empty()
    } else {
        seq![(k, JVal::Arr(v.map_values(|s: Seq<char>| JVal::Str(s))))]
    }
}

/// The member a mapping-valued field contributes: none when it is empty.
pub open spec fn enc_obj(k: Seq<char>, v: Seq<(Seq<char>, JVal)>) -> Seq<(Seq<char>, JVal)> {
    if v.len() == 0 {
        Seq::empty()
    } else {
        seq![(k, JVal::Obj(v))]
    }
}

/// The member a list-of-objects field contributes: none when it is empty.
pub open spec fn enc_arr(k: Seq<char>, v: Seq<JVal>) -> Seq<(Seq<char>, JVal)> {
    if v.len() == 0 {
        Seq::empty()
    } else {
        seq![(k, JVal::Arr(v))]
    }
}

// --- spec: decoding single fields from object members ---

/// A required string member: its characters, or nothing when it is
/// absent or not a string.
pub open spec fn dec_req_str(p: Seq<(Seq<char>, JVal)>, k: Seq<char>) -> Option<Seq<char>> {
    match obj_lookup(p, k) {
        Some(JVal::Str(s)) => Some(s),
        _ => None,
    }
}

/// An optional string member: `Some(None)` when absent, `Some(Some(_))`
/// when a string, nothing when present with another shape.
pub open spec fn dec_opt_str(p: Seq<(Seq<char>, JVal)>, k: Seq<char>) -> Option<
    Option<Seq<char>>,
> {
    match obj_lookup(p, k) {
        None => Some(None),
        Some(JVal::Str(s)) => Some(Some(s)),
        _ => None,
    }
}

/// A required integer member: the value of its decimal token when it is
/// a number that fits a `u64`.
pub open spec fn dec_req_u64(p: Seq<(Seq<char>, JVal)>, k: Seq<char>) -> Option<u64> {
    match obj_lookup(p, k) {
        Some(JVal::Num(s)) => if is_u64_token(s) {
            Some(dec_val(s) as u64)
        } else {
            None
        },
        _ => None,
    }
}

/// An optional integer member.
pub open spec fn dec_opt_u64(p: Seq<(Seq<char>, JVal)>, k: Seq<char>) -> Option<Option<u64>> {
    match obj_lookup(p, k) {
        None => Some(None),
        Some(JVal::Num(s)) => if is_u64_token(s) {
            Some(Some(dec_val(s) as u64))
        } else {
            None
        },
        _ => None,
    }
}

/// An optional size member.
pub open spec fn dec_opt_usize(p: Seq<(Seq<char>, JVal)>, k: Seq<char>) -> Option<Option<usize>> {
    match obj_lookup(p, k) {
        None => Some(None),
        Some(JVal::Num(s)) => if is_usize_token(s) {
            Some(Some(dec_val(s) as usize))
        } else {
            None
        },
        _ => None,
    }
}

/// A required size member.
pub open spec fn dec_req_usize(p: Seq<(Seq<char>, JVal)>, k: Seq<char>) -> Option<usize> {
    match obj_lookup(p, k) {
        Some(JVal::Num(s)) => if is_usize_token(s) {
            Some(dec_val(s) as usize)
        } else {
            None
        },
        _ => None,
    }
}

/// An optional boolean member.
pub open spec fn dec_opt_bool(p: Seq<(Seq<char>, JVal)>, k: Seq<char>) -> Option<Option<bool>> {
    match obj_lookup(p, k) {
        None => Some(None),
        Some(JVal::Bool(b)) => Some(Some(b)),
        _ => None,
    }
}

/// Whether every element of an array is a string.
pub open spec fn all_strs(items: Seq<JVal>) -> bool {
    forall|i: int| 0 <= i < items.len() ==> (#[trigger] items[i]) is Str
}

/// The characters of each element of an array of strings.
pub open spec fn strs_vals(items: Seq<JVal>) -> Seq<Seq<char>> {
    Seq::new(
        items.len(),
        |i: int|
            if 0 <= i < items.len() {
                match items[i] {
                    JVal::Str(s) => s,
                    _ => Seq::empty(),
                }
            } else {
                Seq::empty()
            },
    )
}

/// A string-list member: the empty list when absent, the strings when an
/// array of strings, nothing otherwise.
pub open spec fn dec_strs(p: Seq<(Seq<char>, JVal)>, k: Seq<char>) -> Option<Seq<Seq<char>>> {
    match obj_lookup(p, k) {
        None => Some(Seq::empty()),
        Some(JVal::Arr(items)) => if all_strs(items) {
            Some(strs_vals(items))
        } else {
            None
        },
        _ => None,
    }
}

// --- spec: routing members into an extension slot ---

/// The set of key texts in a list of key literals.
pub open spec fn strs_set(ts: Seq<&str>) -> Set<Seq<char>> {
    Set::new(|s: Seq<char>| exists|i: int| 0 <= i < ts.len() && ts[i]@ == s)
}

/// Folds an object's members into an extension slot, in order, skipping
/// the typed keys: a later duplicate key replaces the earlier value.
pub open spec fn extras_fold(
    p: Seq<(Seq<char>, JVal)>,
    typed: Set<Seq<char>>,
    acc: Seq<(Seq<char>, JVal)>,
) -> Seq<(Seq<char>, JVal)>
    decreases p.len(),
{
    if p.len() == 0 {
        acc
    } else {
        extras_fold(
            p.drop_first(),
            typed,
            if typed.contains(p[0].0) {
                acc
            } else {
                upsert(acc, p[0].0, p[0].1)
            },
        )
    }
}

/// The extension slot an object's members produce: its non-typed keys,
/// in order of first occurrence.
pub open spec fn extras_of(p: Seq<(Seq<char>, JVal)>, typed: Set<Seq<char>>) -> Seq<
    (Seq<char>, JVal),
> {
    extras_fold(p, typed, Seq::empty())
}

/// Folding one more member steps the fold once.
pub proof fn lemma_extras_fold_snoc(
    s: Seq<(Seq<char>, JVal)>,
    x: (Seq<char>, JVal),
    typed: Set<Seq<char>>,
    acc: Seq<(Seq<char>, JVal)>,
)
    ensures
        extras_fold(s.push(x), typed, acc) == if typed.contains(x.0) {
            extras_fold(s, typed, acc)
        } else {
            upsert(extras_fold(s, typed, acc), x.0, x.1)
        },
    decreases s.len(),
{
    if s.len() == 0 {
        assert(s.push(x)[0] == x);
        assert(s.push(x).drop_first() =~= Seq::<(Seq<char>, JVal)>::empty());
        let step = if typed.contains(x.0) {
            acc
        } else {
            upsert(acc, x.0, x.1)
        };
        assert(extras_fold(s.push(x), typed, acc) == extras_fold(
            s.push(x).drop_first(),
            typed,
            step,
        ));
        assert(extras_fold(s.push(x).drop_first(), typed, step) == step);
        assert(extras_fold(s, typed, acc) == acc);
    } else {
        assert(s.push(x)[0] == s[0]);
        assert(s.push(x).drop_first() =~= s.drop_first().push(x));
        lemma_extras_fold_snoc(
            s.drop_first(),
            x,
            typed,
            if typed.contains(s[0].0) {
                acc
            } else {
                upsert(acc, s[0].0, s[0].1)
            },
        );
    }
}

// --- exec: reading single fields ---

/// Looks up a required string member, cloning its contents.
pub fn get_req_str(pairs: &Vec<(String, Json)>, key: &str) -> (r: Option<String>)
    ensures
        match r {
            Some(s) => dec_req_str(pairs_view(pairs@), key@) == Some(s@),
            None => dec_req_str(pairs_view(pairs@), key@) is None,
        },
{
    match Json::lookup(pairs, key) {
        Some(Json::Str(s)) => Some(s.clone()),
        _ => None,
    }
}

/// Looks up an optional string member, cloning its contents.
pub fn get_opt_str(pairs: &Vec<(String, Json)>, key: &str) -> (r: Result<Option<String>, ()>)
    ensures
        match r {
            Ok(Some(s)) => dec_opt_str(pairs_view(pairs@), key@) == Some(Some(s@)),
            Ok(None) => dec_opt_str(pairs_view(pairs@), key@) == Some(None::<Seq<char>>),
            Err(_) => dec_opt_str(pairs_view(pairs@), key@) is None,
        },
{
    match Json::lookup(pairs, key) {
        None => Ok(None),
        Some(Json::Str(s)) => Ok(Some(s.clone())),
        Some(_) => Err(()),
    }
}

/// Looks up a required integer member.
pub fn get_req_u64(pairs: &Vec<(String, Json)>, key: &str) -> (r: Option<u64>)
    ensures
        match r {
            Some(v) => dec_req_u64(pairs_view(pairs@), key@) == Some(v),
            None => dec_req_u64(pairs_view(pairs@), key@) is None,
        },
{
    match Json::lookup(pairs, key) {
        Some(Json::Num(s)) => {
            let cs = str_chars(s.as_str());
            parse_dec_u64(&cs)
        },
        _ => None,
    }
}

/// Looks up an optional integer member.
pub fn get_opt_u64(pairs: &Vec<(String, Json)>, key: &str) -> (r: Result<Option<u64>, ()>)
    ensures
        match r {
            Ok(Some(v)) => dec_opt_u64(pairs_view(pairs@), key@) == Some(Some(v)),
            Ok(None) => dec_opt_u64(pairs_view(pairs@), key@) == Some(None::<u64>),
            Err(_) => dec_opt_u64(pairs_view(pairs@), key@) is None,
        },
{
    match Json::lookup(pairs, key) {
        None => Ok(None),
        Some(Json::Num(s)) => {
            let cs = str_chars(s.as_str());
            match parse_dec_u64(&cs) {
                Some(v) => Ok(Some(v)),
                None => Err(()),
            }
        },
        Some(_) => Err(()),
    }
}

/// Looks up an optional size member.
pub fn get_opt_usize(pairs: &Vec<(String, Json)>, key: &str) -> (r: Result<Option<usize>, ()>)
    ensures
        match r {
            Ok(Some(v)) => dec_opt_usize(pairs_view(pairs@), key@) == Some(Some(v)),
            Ok(None) => dec_opt_usize(pairs_view(pairs@), key@) == Some(None::<usize>),
            Err(_) => dec_opt_usize(pairs_view(pairs@), key@) is None,
        },
{
    match Json::lookup(pairs, key) {
        None => Ok(None),
        Some(Json::Num(s)) => {
            let cs = str_chars(s.as_str());
            match parse_dec_u64(&cs) {
                Some(v) => if v <= usize::MAX as u64 {
                    Ok(Some(v as usize))
                } else {
                    Err(())
                },
                None => Err(()),
            }
        },
        Some(_) => Err(()),
    }
}

/// Looks up a required size member.
pub fn get_req_usize(pairs: &Vec<(String, Json)>, key: &str) -> (r: Option<usize>)
    ensures
        match r {
            Some(v) => dec_req_usize(pairs_view(pairs@), key@) == Some(v),
            None => dec_req_usize(pairs_view(pairs@), key@) is None,
        },
{
    match Json::lookup(pairs, key) {
        Some(Json::Num(s)) => {
            let cs = str_chars(s.as_str());
            match parse_dec_u64(&cs) {
                Some(v) => if v <= usize::MAX as u64 {
                    Some(v as usize)
                } else {
                    None
                },
                None => None,
            }
        },
        _ => None,
    }
}

/// Looks up an optional boolean member.
pub fn get_opt_bool(pairs: &Vec<(String, Json)>, key: &str) -> (r: Result<Option<bool>, ()>)
    ensures
        match r {
            Ok(Some(v)) => dec_opt_bool(pairs_view(pairs@), key@) == Some(Some(v)),
            Ok(None) => dec_opt_bool(pairs_view(pairs@), key@) == Some(None::<bool>),
            Err(_) => dec_opt_bool(pairs_view(pairs@), key@) is None,
        },
{
    match Json::lookup(pairs, key) {
        None => Ok(None),
        Some(Json::Bool(b)) => Ok(Some(*b)),
        Some(_) => Err(()),
    }
}

/// Looks up a string-list member, cloning the strings; absent means empty.
#[verifier::loop_isolation(false)]
pub fn get_strs(pairs: &Vec<(String, Json)>, key: &str) -> (r: Result<Vec<String>, ()>)
    ensures
        match r {
            Ok(v) => dec_strs(pairs_view(pairs@), key@) == Some(crate::json::view_strs(v@)),
            Err(_) => dec_strs(pairs_view(pairs@), key@) is None,
        },
{
    match Json::lookup(pairs, key) {
        None => {
            let out: Vec<String> = Vec::new();
            proof {
                assert(crate::json::view_strs(out@) =~= Seq::<Seq<char>>::empty());
            }
            Ok(out)
        },
        Some(Json::Arr(items)) => {
            let mut out: Vec<String> = Vec::new();
            let mut i: usize = 0;
            while i < items.len()
                invariant
                    0 <= i <= items.len(),
                    out@.len() == i,
                    forall|j: int| 0 <= j < i ==> (#[trigger] items@[j]@) is Str,
                    forall|j: int| 0 <= j < i ==> out@[j]@ == items@[j]@->Str_0,
                decreases items.len() - i,
            {
                let it = &items[i];
                match it {
                    Json::Str(s) => out.push(s.clone()),
                    _ => {
                        proof {
                            crate::json::lemma_jvals_of(items@);
                            let iv = crate::json::jvals_of(items@);
                            assert(iv[i as int] == items@[i as int]@);
                            assert(!(it@ is Str));
                            assert(!all_strs(iv));
                        }
                        return Err(());
                    },
                }
                i += 1;
            }
            proof {
                crate::json::lemma_jvals_of(items@);
                let ghost iv = crate::json::jvals_of(items@);
                assert(iv.len() == items@.len());
                assert forall|j: int| 0 <= j < iv.len() implies (#[trigger] iv[j]) is Str by {
                    assert(iv[j] == items@[j]@);
                }
                assert forall|j: int|
                    0 <= j < out@.len() implies crate::json::view_strs(out@)[j] == strs_vals(
                    iv,
                )[j] by {
                    assert(iv[j] == items@[j]@);
                }
                assert(crate::json::view_strs(out@) =~= strs_vals(iv));
            }
            Ok(out)
        },
        Some(_) => Err(()),
    }
}

/// Whether one of the key literals has the text `k`.
pub fn key_in(typed: &[&str], k: &str) -> (r: bool)
    ensures
        r == strs_set(typed@).contains(k@),
{
    let mut i: usize = 0;
    while i < typed.len()
        invariant
            0 <= i <= typed.len(),
            forall|j: int| 0 <= j < i ==> (#[trigger] typed@[j])@ != k@,
        decreases typed.len() - i,
    {
        if str_eq(typed[i], k) {
            proof {
                assert(typed@[i as int]@ == k@);
            }
            return true;
        }
        i += 1;
    }
    proof {
        if strs_set(typed@).contains(k@) {
            let j = choose|j: int| 0 <= j < typed@.len() && typed@[j]@ == k@;
            assert((typed@[j])@ == k@);
            assert(false);
        }
    }
    false
}

/// Collects an object's non-typed members into a fresh extension slot,
/// in order of first occurrence, a later duplicate replacing the value.
pub fn collect_extras(pairs: &Vec<(String, Json)>, typed: &[&str]) -> (r: Extras)
    ensures
        r@ == extras_of(pairs_view(pairs@), strs_set(typed@)),
        r.wf(),
{
    let ghost pv = pairs_view(pairs@);
    let ghost tset = strs_set(typed@);
    let mut extra = Extras::new();
    let mut i: usize = 0;
    proof {
        assert(pv.take(0) =~= Seq::<(Seq<char>, JVal)>::empty());
    }
    while i < pairs.len()
        invariant
            0 <= i <= pairs.len(),
            pv == pairs_view(pairs@),
            tset == strs_set(typed@),
            extra.wf(),
            extra@ == extras_fold(pv.take(i as int), tset, Seq::empty()),
        decreases pairs.len() - i,
    {
        proof {
            assert(pv.take(i + 1) =~= pv.take(i as int).push(pv[i as int]));
            lemma_extras_fold_snoc(pv.take(i as int), pv[i as int], tset, Seq::empty());
            assert(pv[i as int] == (pairs@[i as int].0@, pairs@[i as int].1@));
        }
        let is_typed = key_in(typed, pairs[i].0.as_str());
        if !is_typed {
            let k = pairs[i].0.clone();
            let v = pairs[i].1.clone();
            extra.insert(k, v);
        }
        i += 1;
    }
    proof {
        assert(pv.take(pairs@.len() as int) =~= pv);
    }
    extra
}


/// Appends an extension slot's members to an object under construction,
/// inlined as sibling keys in insertion order.
#[verifier::loop_isolation(false)]
pub fn push_extras(out: &mut Vec<(String, Json)>, extra: &Extras)
    ensures
        pairs_view(final(out)@) == pairs_view(old(out)@) + extra@,
{
    let ghost base = old(out)@;
    let members = extra.members();
    let mut i: usize = 0;
    while i < members.len()
        invariant
            0 <= i <= members.len(),
            out@.len() == base.len() + i,
            forall|j: int| 0 <= j < base.len() ==> out@[j] == base[j],
            forall|j: int|
                0 <= j < i ==> (#[trigger] out@[base.len() + j].0@, out@[base.len() + j].1@)
                    == extra@[j],
        decreases members.len() - i,
    {
        let k = members[i].0.clone();
        let v = members[i].1.clone();
        out.push((k, v));
        proof {
            assert(pairs_view(members@)[i as int] == (members@[i as int].0@, members@[i as int].1@));
            assert((out@[base.len() + i].0@, out@[base.len() + i].1@) == extra@[i as int]);
        }
        i += 1;
    }
    proof {
        assert forall|j: int|
            0 <= j < out@.len() implies pairs_view(out@)[j] == (pairs_view(base) + extra@)[j] by {
            assert(pairs_view(out@)[j] == (out@[j].0@, out@[j].1@));
            if j < base.len() {
                assert(pairs_view(base)[j] == (base[j].0@, base[j].1@));
            } else {
                assert((out@[base.len() + (j - base.len())].0@, out@[base.len() + (
                j - base.len())].1@) == extra@[j - base.len()]);
            }
        }
        assert(pairs_view(out@) =~= pairs_view(base) + extra@);
    }
}


/// Appends the member an optional string field contributes, if any.
pub fn push_opt_str(out: &mut Vec<(String, Json)>, key: &str, v: &Option<String>)
    ensures
        pairs_view(final(out)@) == pairs_view(old(out)@) + enc_opt_str(
            key@,
            crate::json::view_opt_str(*v),
        ),
{
    let ghost base = old(out)@;
    match v {
        Some(s) => {
            out.push((key.to_owned(), Json::Str(s.clone())));
            proof {
                assert(pairs_view(out@) =~= pairs_view(base) + enc_opt_str(
                    key@,
                    crate::json::view_opt_str(*v),
                ));
            }
        },
        None => {
            proof {
                assert(pairs_view(out@) =~= pairs_view(base) + enc_opt_str(
                    key@,
                    crate::json::view_opt_str(*v),
                ));
            }
        },
    }
}

/// Appends the member an optional integer field contributes, if any.
pub fn push_opt_u64(out: &mut Vec<(String, Json)>, key: &str, v: &Option<u64>)
    ensures
        pairs_view(final(out)@) == pairs_view(old(out)@) + enc_opt_u64(key@, *v),
{
    let ghost base = old(out)@;
    match v {
        Some(n) => {
            let mut digits: Vec<char> = Vec::new();
            push_dec_u64(*n, &mut digits);
            out.push((key.to_owned(), Json::Num(chars_to_string(&digits))));
            proof {
                assert(pairs_view(out@) =~= pairs_view(base) + enc_opt_u64(key@, *v));
            }
        },
        None => {
            proof {
                assert(pairs_view(out@) =~= pairs_view(base) + enc_opt_u64(key@, *v));
            }
        },
    }
}

/// Appends the member an optional size field contributes, if any.
pub fn push_opt_usize(out: &mut Vec<(String, Json)>, key: &str, v: &Option<usize>)
    ensures
        pairs_view(final(out)@) == pairs_view(old(out)@) + enc_opt_usize(key@, *v),
{
    let ghost base = old(out)@;
    match v {
        Some(n) => {
            let mut digits: Vec<char> = Vec::new();
            push_dec_u64(*n as u64, &mut digits);
            out.push((key.to_owned(), Json::Num(chars_to_string(&digits))));
            proof {
                assert(pairs_view(out@) =~= pairs_view(base) + enc_opt_usize(key@, *v));
            }
        },
        None => {
            proof {
                assert(pairs_view(out@) =~= pairs_view(base) + enc_opt_usize(key@, *v));
            }
        },
    }
}

/// Appends the member an optional boolean field contributes, if any.
pub fn push_opt_bool(out: &mut Vec<(String, Json)>, key: &str, v: &Option<bool>)
    ensures
        pairs_view(final(out)@) == pairs_view(old(out)@) + enc_opt_bool(key@, *v),
{
    let ghost base = old(out)@;
    match v {
        Some(b) => {
            out.push((key.to_owned(), Json::Bool(*b)));
            proof {
                assert(pairs_view(out@) =~= pairs_view(base) + enc_opt_bool(key@, *v));
            }
        },
        None => {
            proof {
                assert(pairs_view(out@) =~= pairs_view(base) + enc_opt_bool(key@, *v));
            }
        },
    }
}

/// Appends a required integer member.
pub fn push_req_u64(out: &mut Vec<(String, Json)>, key: &str, n: u64)
    ensures
        pairs_view(final(out)@) == pairs_view(old(out)@) + seq![
            (key@, JVal::Num(dec_rep(n as nat))),
        ],
{
    let ghost base = old(out)@;
    let mut digits: Vec<char> = Vec::new();
    push_dec_u64(n, &mut digits);
    out.push((key.to_owned(), Json::Num(chars_to_string(&digits))));
    proof {
        assert(pairs_view(out@) =~= pairs_view(base) + seq![(key@, JVal::Num(dec_rep(n as nat)))]);
    }
}

/// Appends the member a string-list field contributes, if any.
pub fn push_strs(out: &mut Vec<(String, Json)>, key: &str, v: &Vec<String>)
    ensures
        pairs_view(final(out)@) == pairs_view(old(out)@) + enc_strs(
            key@,
            crate::json::view_strs(v@),
        ),
{
    let ghost base = old(out)@;
    if v.len() == 0 {
        proof {
            assert(pairs_view(out@) =~= pairs_view(base) + enc_strs(
                key@,
                crate::json::view_strs(v@),
            ));
        }
        return ;
    }
    let mut items: Vec<Json> = Vec::new();
    let mut i: usize = 0;
    while i < v.len()
        invariant
            0 <= i <= v.len(),
            items@.len() == i,
            forall|j: int| 0 <= j < i ==> items@[j]@ == JVal::Str(v@[j]@),
        decreases v.len() - i,
    {
        items.push(Json::Str(v[i].clone()));
        i += 1;
    }
    let arr = Json::Arr(items);
    proof {
        crate::json::lemma_json_view(arr);
        assert(crate::json::jvals_view(items@) =~= crate::json::view_strs(v@).map_values(
            |s: Seq<char>| JVal::Str(s),
        ));
    }
    out.push((key.to_owned(), arr));
    proof {
        assert(pairs_view(out@) =~= pairs_view(base) + enc_strs(key@, crate::json::view_strs(v@)));
    }
}


/// Folding members whose keys are all new and non-typed appends them in
/// order: the slot an encoder inlined comes back exactly.
pub proof fn lemma_extras_fold_passthrough(
    e: Seq<(Seq<char>, JVal)>,
    typed: Set<Seq<char>>,
    acc: Seq<(Seq<char>, JVal)>,
)
    requires
        crate::extra::unique_keys(acc + e),
        forall|j: int| 0 <= j < e.len() ==> !typed.contains((#[trigger] e[j]).0),
    ensures
        extras_fold(e, typed, acc) == acc + e,
    decreases e.len(),
{
    if e.len() == 0 {
        assert(acc + e =~= acc);
    } else {
        let x = e[0];
        assert(!typed.contains(x.0));
        assert(forall|j: int| 0 <= j < acc.len() ==> (acc + e)[j] == (#[trigger] acc[j]));
        assert forall|j: int| 0 <= j < acc.len() implies (#[trigger] acc[j]).0 != x.0 by {
            assert((acc + e)[j] == acc[j]);
            assert((acc + e)[acc.len() as int] == x);
        }
        crate::extra::lemma_upsert_absent(acc, x.0, x.1);
        assert(acc.push(x) + e.drop_first() =~= acc + e);
        assert(forall|j: int|
            0 <= j < e.drop_first().len() ==> (#[trigger] e.drop_first()[j]) == e[j + 1]);
        lemma_extras_fold_passthrough(e.drop_first(), typed, acc.push(x));
        assert(extras_fold(e, typed, acc) == extras_fold(e.drop_first(), typed, acc.push(x)));
    }
}

/// Lookup distributes over concatenation: the left side wins when it
/// holds the key.
pub proof fn lemma_lookup_concat(
    a: Seq<(Seq<char>, JVal)>,
    b: Seq<(Seq<char>, JVal)>,
    key: Seq<char>,
)
    ensures
        obj_lookup(a + b, key) == if crate::json::obj_has_key(a, key) {
            obj_lookup(a, key)
        } else {
            obj_lookup(b, key)
        },
    decreases a.len(),
{
    if a.len() == 0 {
        assert(a + b =~= b);
    } else {
        assert((a + b)[0] == a[0]);
        assert((a + b).drop_first() =~= a.drop_first() + b);
        lemma_lookup_concat(a.drop_first(), b, key);
    }
}


/// What lookup finds in the segment an optional string field contributes:
/// its own key maps to the field's value; any other key is absent.
pub proof fn lemma_lookup_opt_seg(k: Seq<char>, f: Option<Seq<char>>, k2: Seq<char>)
    ensures
        obj_lookup(enc_opt_str(k, f), k) == match f {
            Some(s) => Some(JVal::Str(s)),
            None => None,
        },
        k2 != k ==> obj_lookup(enc_opt_str(k, f), k2) is None,
{
    match f {
        Some(s) => {
            assert(enc_opt_str(k, f)[0] == (k, JVal::Str(s)));
            assert(enc_opt_str(k, f).drop_first() =~= Seq::<(Seq<char>, JVal)>::empty());
            if k2 != k {
                assert(obj_lookup(enc_opt_str(k, f), k2) == obj_lookup(
                    enc_opt_str(k, f).drop_first(),
                    k2,
                ));
            }
        },
        None => {},
    }
}

/// Folding past the segment of a typed optional field leaves the slot
/// untouched.
pub proof fn lemma_extras_fold_skip_opt(
    k: Seq<char>,
    f: Option<Seq<char>>,
    rest: Seq<(Seq<char>, JVal)>,
    typed: Set<Seq<char>>,
    acc: Seq<(Seq<char>, JVal)>,
)
    requires
        typed.contains(k),
    ensures
        extras_fold(enc_opt_str(k, f) + rest, typed, acc) == extras_fold(rest, typed, acc),
{
    match f {
        Some(s) => {
            let w = enc_opt_str(k, f) + rest;
            assert(w[0] == (k, JVal::Str(s)));
            assert(w.drop_first() =~= rest);
        },
        None => {
            assert(enc_opt_str(k, f) + rest =~= rest);
        },
    }
}

} // verus!
