//! A sub-step of one test, owned by that test and ordered within it.

use vstd::prelude::*;
use crate::codec::{
    collect_extras, dec_req_str, extras_of, get_req_str, push_extras, strs_set, DecodeError,
};
use crate::extra::{Extra, Extras};
use crate::json::{obj_lookup, pairs_view, JVal, Json};
use crate::test::{dec_req_status, get_status, status_tag, Status};

verus! {

/// One step of a test: a name, an outcome, and an extension slot.
pub struct Step {
    /// Required
    pub name: String,
    /// Required
    pub status: Status,
    extra: Extras,
}

/// The model of a [`Step`].
#[verifier::ext_equal]
pub struct StepView {
    pub name: Seq<char>,
    pub status: Status,
    pub extra: Seq<(Seq<char>, JVal)>,
}

impl View for Step {
    type V = StepView;

    closed spec fn view(&self) -> StepView {
        StepView { name: self.name@, status: self.status, extra: self.extra@ }
    }
}

impl Step {
    /// The structural invariant: the extension slot has unique keys.
    pub open spec fn wf(&self) -> bool {
        crate::extra::unique_keys(self@.extra)
    }

    /// Creates a step with an empty extension slot.
    pub fn new(name: String, status: Status) -> (r: Step)
        ensures
            r@.name == name@,
            r@.status == status,
            r@.extra.len() == 0,
            r.wf(),
    {
        Step { name, status, extra: Extras::new() }
    }

    /// The extension slot's members, in insertion order.
    pub fn extra(&self) -> (r: &Extras)
        ensures
            r@ == self@.extra,
    {
        &self.extra
    }
}

impl Extra for Step {
    open spec fn extra_view(&self) -> Seq<(Seq<char>, JVal)> {
        self@.extra
    }

    open spec fn extra_wf(&self) -> bool {
        self.wf()
    }

    fn insert_extra(&mut self, key: String, value: Json) -> (prev: Option<Json>)
        ensures
            final(self)@.name == old(self)@.name,
            final(self)@.status == old(self)@.status,
    {
        self.extra.insert(key, value)
    }

    fn remove_extra(&mut self, key: &str) -> (prev: Option<Json>)
        ensures
            final(self)@.name == old(self)@.name,
            final(self)@.status == old(self)@.status,
    {
        self.extra.remove(key)
    }
}


/// The typed wire keys of a step record.
pub open spec fn step_typed_keys() -> Set<Seq<char>> {
    Set::new(|s: Seq<char>| s == "name"@ || s == "status"@)
}

/// The members of an encoded step record, in wire order.
pub open spec fn step_pairs(v: StepView) -> Seq<(Seq<char>, JVal)> {
    seq![("name"@, JVal::Str(v.name)), ("status"@, JVal::Str(status_tag(v.status)))] + v.extra
}

/// The encoded form of a step record.
pub open spec fn step_jval(v: StepView) -> JVal {
    JVal::Obj(step_pairs(v))
}

/// The step a document value decodes to, when it is an object with a
/// string `name` and a known `status` tag.
pub open spec fn step_from_pairs(p: Seq<(Seq<char>, JVal)>) -> Option<StepView> {
    match (dec_req_str(p, "name"@), dec_req_status(p, "status"@)) {
        (Some(name), Some(status)) => Some(
            StepView { name, status, extra: extras_of(p, step_typed_keys()) },
        ),
        _ => None,
    }
}

/// The step a document value decodes to, when it is a well-shaped object.
pub open spec fn step_from_json(v: JVal) -> Option<StepView> {
    match v {
        JVal::Obj(p) => step_from_pairs(p),
        _ => None,
    }
}

impl Step {
    /// Encodes the step as a document value: the typed fields in wire
    /// order, extension members inlined after.
    pub fn to_json(&self) -> (r: Json)
        ensures
            r@ == step_jval(self@),
    {
        let mut out: Vec<(String, Json)> = Vec::new();
        out.push((String::from_str("name"), Json::Str(self.name.clone())));
        out.push((String::from_str("status"), Json::Str(String::from_str(self.status.tag()))));
        push_extras(&mut out, &self.extra);
        let r = Json::Obj(out);
        proof {
            crate::json::lemma_json_view(r);
            assert(pairs_view(out@) =~= step_pairs(self@));
        }
        r
    }

    /// Decodes a step from a document value: the exact inverse of the
    /// shape [`step_from_json`] describes, every unknown sibling key
    /// routed into the extension slot.
    pub fn from_json(j: &Json) -> (r: Result<Step, DecodeError>)
        ensures
            match r {
                Ok(v) => step_from_json(j@) == Some(v@) && v.wf(),
                Err(_) => step_from_json(j@) is None,
            },
    {
        let pairs = match j {
            Json::Obj(p) => p,
            _ => {
                return Err(DecodeError::Field(String::from_str("step")));
            },
        };
        let ghost pv = pairs_view(pairs@);
        proof {
            crate::json::lemma_json_view(*j);
        }
        let name = match get_req_str(pairs, "name") {
            Some(s) => s,
            None => {
                return Err(DecodeError::Field(String::from_str("name")));
            },
        };
        let status = match get_status(pairs, "status") {
            Some(st) => st,
            None => {
                return Err(DecodeError::Field(String::from_str("status")));
            },
        };
        let mut typed: Vec<&str> = Vec::new();
        typed.push("name");
        typed.push("status");
        proof {
            assert forall|s: Seq<char>| strs_set(typed@).contains(s) implies step_typed_keys()
                .contains(s) by {
                let i = choose|i: int| 0 <= i < typed@.len() && typed@[i]@ == s;
            }
            assert forall|s: Seq<char>| step_typed_keys().contains(s) implies strs_set(typed@)
                .contains(s) by {
                if s == "name"@ {
                    assert(typed@[0]@ == s);
                } else {
                    assert(typed@[1]@ == s);
                }
            }
            assert(strs_set(typed@) =~= step_typed_keys());
        }
        let extra = collect_extras(pairs, typed.as_slice());
        let v = Step { name, status, extra };
        proof {
            assert(step_from_json(j@) == Some(v@)) by {
                assert(step_from_pairs(pv) matches Some(w) && w =~= v@);
            }
        }
        Ok(v)
    }
}


/// Extension round-trip law: encoding a step and decoding the result
/// yields the same model, whatever its extension slot holds — any
/// non-typed key inserted into the slot comes back unchanged. The
/// slot's keys must be unique and distinct from the typed wire keys.
pub proof fn lemma_step_roundtrip(v: StepView)
    requires
        crate::extra::unique_keys(v.extra),
        forall|j: int| 0 <= j < v.extra.len() ==> !step_typed_keys().contains(
            (#[trigger] v.extra[j]).0,
        ),
    ensures
        step_from_json(step_jval(v)) == Some(v),
{
    reveal_strlit("name");
    reveal_strlit("status");
    let head = seq![("name"@, JVal::Str(v.name)), ("status"@, JVal::Str(status_tag(v.status)))];
    let p = step_pairs(v);
    assert(p =~= head + v.extra);
    assert("name"@ != "status"@) by {
        assert("name"@.len() == 4 && "status"@.len() == 6);
    }
    crate::codec::lemma_lookup_concat(head, v.extra, "name"@);
    crate::codec::lemma_lookup_concat(head, v.extra, "status"@);
    assert(head[0] == ("name"@, JVal::Str(v.name)));
    assert(obj_lookup(head, "name"@) == Some(JVal::Str(v.name)));
    assert(obj_lookup(head, "status"@) == obj_lookup(head.drop_first(), "status"@));
    assert(head.drop_first() =~= seq![("status"@, JVal::Str(status_tag(v.status)))]);
    assert(head.drop_first()[0] == ("status"@, JVal::Str(status_tag(v.status))));
    assert(obj_lookup(head, "status"@) == Some(JVal::Str(status_tag(v.status))));
    crate::test::lemma_status_tag_roundtrip(v.status);
    assert(crate::codec::dec_req_str(p, "name"@) == Some(v.name));
    assert(crate::test::dec_req_status(p, "status"@) == Some(v.status));
    assert(crate::codec::extras_of(p, step_typed_keys()) == v.extra) by {
        assert(step_typed_keys().contains("name"@));
        assert(step_typed_keys().contains("status"@));
        assert(crate::codec::extras_fold(p, step_typed_keys(), Seq::empty())
            == crate::codec::extras_fold(p.drop_first(), step_typed_keys(), Seq::empty()));
        assert(p.drop_first() =~= seq![("status"@, JVal::Str(status_tag(v.status)))] + v.extra);
        assert(crate::codec::extras_fold(p.drop_first(), step_typed_keys(), Seq::empty())
            == crate::codec::extras_fold(
            p.drop_first().drop_first(),
            step_typed_keys(),
            Seq::empty(),
        ));
        assert(p.drop_first().drop_first() =~= v.extra);
        assert(Seq::<(Seq<char>, JVal)>::empty() + v.extra =~= v.extra);
        crate::codec::lemma_extras_fold_passthrough(v.extra, step_typed_keys(), Seq::empty());
    }
    assert(step_from_pairs(p) matches Some(w) && w =~= v);
}

} // verus!
