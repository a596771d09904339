//! The tool that produced a run: name, optional version, extension slot.

use vstd::prelude::*;
use crate::codec::{
    collect_extras, dec_opt_str, dec_req_str, enc_opt_str, extras_of, get_opt_str, get_req_str,
    push_extras, strs_set, DecodeError,
};
use crate::extra::{Extra, Extras};
use crate::json::{obj_lookup, pairs_view, JVal, Json};

verus! {

/// The name this library reports for itself when it is the producing tool.
pub const TOOL_NAME: &'static str = "ctrf-rs";

/// The producing tool of a test run.
pub struct Tool {
    name: String,
    version: Option<String>,
    extra: Extras,
}

/// The model of a [`Tool`].
#[verifier::ext_equal]
pub struct ToolView {
    pub name: Seq<char>,
    pub version: Option<Seq<char>>,
    pub extra: Seq<(Seq<char>, JVal)>,
}

impl View for Tool {
    type V = ToolView;

    closed spec fn view(&self) -> ToolView {
        ToolView {
            name: self.name@,
            version: match self.version {
                Some(v) => Some(v@),
                None => None,
            },
            extra: self.extra@,
        }
    }
}

impl Tool {
    /// The structural invariant: the extension slot has unique keys.
    pub open spec fn wf(&self) -> bool {
        crate::extra::unique_keys(self@.extra)
    }

    /// Creates a tool record with the given name and optional version
    /// and an empty extension slot. The name is recorded as given: an
    /// empty name is not rejected, a deliberately permissive choice.
    pub fn new(name: &str, version: Option<String>) -> (r: Tool)
        ensures
            r@.name == name@,
            r@.version == match version {
                Some(v) => Some(v@),
                None => None::<Seq<char>>,
            },
            r@.extra.len() == 0,
            r.wf(),
    {
        Tool { name: name.to_owned(), version, extra: Extras::new() }
    }

    /// The tool's name.
    pub fn name(&self) -> (r: &String)
        ensures
            r@ == self@.name,
    {
        &self.name
    }

    /// The tool's version, if one was given.
    pub fn version(&self) -> (r: &Option<String>)
        ensures
            match r {
                Some(v) => self@.version == Some(v@),
                None => self@.version is None,
            },
    {
        &self.version
    }

    /// The extension slot's members, in insertion order.
    pub fn extra(&self) -> (r: &Extras)
        ensures
            r@ == self@.extra,
    {
        &self.extra
    }
}

impl Extra for Tool {
    open spec fn extra_view(&self) -> Seq<(Seq<char>, JVal)> {
        self@.extra
    }

    open spec fn extra_wf(&self) -> bool {
        self.wf()
    }

    fn insert_extra(&mut self, key: String, value: Json) -> (prev: Option<Json>)
        ensures
            final(self)@.name == old(self)@.name,
            final(self)@.version == old(self)@.version,
    {
        self.extra.insert(key, value)
    }

    fn remove_extra(&mut self, key: &str) -> (prev: Option<Json>)
        ensures
            final(self)@.name == old(self)@.name,
            final(self)@.version == old(self)@.version,
    {
        self.extra.remove(key)
    }
}


/// The typed wire keys of a tool record.
pub open spec fn tool_typed_keys() -> Set<Seq<char>> {
    Set::new(|s: Seq<char>| s == "name"@ || s == "version"@)
}

/// The members of an encoded tool record, in wire order.
pub open spec fn tool_pairs(t: ToolView) -> Seq<(Seq<char>, JVal)> {
    seq![("name"@, JVal::Str(t.name))] + enc_opt_str("version"@, t.version) + t.extra
}

/// The encoded form of a tool record.
pub open spec fn tool_jval(t: ToolView) -> JVal {
    JVal::Obj(tool_pairs(t))
}

/// The tool a document value decodes to, when it is an object with a
/// string `name`, an absent-or-string `version`, and any other members.
pub open spec fn tool_from_pairs(p: Seq<(Seq<char>, JVal)>) -> Option<ToolView> {
    match (dec_req_str(p, "name"@), dec_opt_str(p, "version"@)) {
        (Some(name), Some(version)) => Some(
            ToolView { name, version, extra: extras_of(p, tool_typed_keys()) },
        ),
        _ => None,
    }
}

/// The tool a document value decodes to, when it is a well-shaped object.
pub open spec fn tool_from_json(v: JVal) -> Option<ToolView> {
    match v {
        JVal::Obj(p) => tool_from_pairs(p),
        _ => None,
    }
}

impl Tool {
    /// Encodes the tool as a document value: the typed fields in wire
    /// order, absent fields omitted, extension members inlined after.
    pub fn to_json(&self) -> (r: Json)
        ensures
            r@ == tool_jval(self@),
    {
        let mut out: Vec<(String, Json)> = Vec::new();
        out.push((String::from_str("name"), Json::Str(self.name.clone())));
        match &self.version {
            Some(v) => out.push((String::from_str("version"), Json::Str(v.clone()))),
            None => {},
        }
        push_extras(&mut out, &self.extra);
        let r = Json::Obj(out);
        proof {
            crate::json::lemma_json_view(r);
            assert(pairs_view(out@) =~= tool_pairs(self@));
        }
        r
    }

    /// Decodes a tool from a document value: the exact inverse of the
    /// shape [`tool_from_json`] describes, every unknown sibling key
    /// routed into the extension slot.
    pub fn from_json(j: &Json) -> (r: Result<Tool, DecodeError>)
        ensures
            match r {
                Ok(t) => tool_from_json(j@) == Some(t@) && t.wf(),
                Err(_) => tool_from_json(j@) is None,
            },
    {
        let pairs = match j {
            Json::Obj(p) => p,
            _ => {
                return Err(DecodeError::Field(String::from_str("tool")));
            },
        };
        let ghost pv = pairs_view(pairs@);
        proof {
            crate::json::lemma_json_view(*j);
        }
        let name = match get_req_str(pairs, "name") {
            Some(s) => s,
            None => {
                return Err(DecodeError::Field(String::from_str("name")));
            },
        };
        let version = match get_opt_str(pairs, "version") {
            Ok(v) => v,
            Err(_) => {
                return Err(DecodeError::Field(String::from_str("version")));
            },
        };
        let mut typed: Vec<&str> = Vec::new();
        typed.push("name");
        typed.push("version");
        proof {
            assert forall|s: Seq<char>| strs_set(typed@).contains(s) implies tool_typed_keys()
                .contains(s) by {
                let i = choose|i: int| 0 <= i < typed@.len() && typed@[i]@ == s;
            }
            assert forall|s: Seq<char>| tool_typed_keys().contains(s) implies strs_set(typed@)
                .contains(s) by {
                if s == "name"@ {
                    assert(typed@[0]@ == s);
                } else {
                    assert(typed@[1]@ == s);
                }
            }
            assert(strs_set(typed@) =~= tool_typed_keys());
        }
        let extra = collect_extras(pairs, typed.as_slice());
        let t = Tool { name, version, extra };
        proof {
            assert(tool_from_json(j@) == Some(t@)) by {
                assert(tool_from_pairs(pv) matches Some(v) && v =~= t@);
            }
        }
        Ok(t)
    }
}


/// Extension round-trip law: encoding a tool and decoding the result
/// yields the same model, whatever its extension slot holds — in
/// particular, after inserting any key/value pair whose key is not a
/// typed key, that pair comes back unchanged. The slot's keys must be
/// unique and distinct from the typed wire keys, as the slot invariant
/// and the sibling-inlining wire form require.
pub proof fn lemma_tool_roundtrip(t: ToolView)
    requires
        crate::extra::unique_keys(t.extra),
        forall|j: int| 0 <= j < t.extra.len() ==> !tool_typed_keys().contains(
            (#[trigger] t.extra[j]).0,
        ),
    ensures
        tool_from_json(tool_jval(t)) == Some(t),
{
    reveal_strlit("name");
    reveal_strlit("version");
    let head = seq![("name"@, JVal::Str(t.name))] + enc_opt_str("version"@, t.version);
    let p = tool_pairs(t);
    assert(p =~= head + t.extra);
    assert("name"@ != "version"@) by {
        assert("name"@.len() == 4 && "version"@.len() == 7);
    }
    crate::codec::lemma_lookup_concat(head, t.extra, "name"@);
    crate::codec::lemma_lookup_concat(head, t.extra, "version"@);
    assert(head[0] == ("name"@, JVal::Str(t.name)));
    assert(obj_lookup(head, "name"@) == Some(JVal::Str(t.name)));
    assert(obj_lookup(head, "version"@) == obj_lookup(head.drop_first(), "version"@));
    match t.version {
        Some(ver) => {
            assert(head.drop_first() =~= seq![("version"@, JVal::Str(ver))]);
            assert(head.drop_first()[0] == ("version"@, JVal::Str(ver)));
            assert(obj_lookup(head, "version"@) == Some(JVal::Str(ver)));
        },
        None => {
            assert(head.drop_first() =~= Seq::<(Seq<char>, JVal)>::empty());
            assert(obj_lookup(head, "version"@) is None);
            crate::extra::lemma_lookup_absent(t.extra, "version"@);
        },
    }
    assert(crate::codec::dec_req_str(p, "name"@) == Some(t.name));
    assert(crate::codec::dec_opt_str(p, "version"@) == Some(t.version));
    assert(crate::codec::extras_of(p, tool_typed_keys()) == t.extra) by {
        assert(tool_typed_keys().contains("name"@));
        assert(tool_typed_keys().contains("version"@));
        match t.version {
            Some(ver) => {
                assert(crate::codec::extras_fold(p, tool_typed_keys(), Seq::empty())
                    == crate::codec::extras_fold(
                    p.drop_first(),
                    tool_typed_keys(),
                    Seq::empty(),
                ));
                assert(p.drop_first() =~= seq![("version"@, JVal::Str(ver))] + t.extra);
                assert(crate::codec::extras_fold(p.drop_first(), tool_typed_keys(), Seq::empty())
                    == crate::codec::extras_fold(
                    p.drop_first().drop_first(),
                    tool_typed_keys(),
                    Seq::empty(),
                ));
                assert(p.drop_first().drop_first() =~= t.extra);
            },
            None => {
                assert(crate::codec::extras_fold(p, tool_typed_keys(), Seq::empty())
                    == crate::codec::extras_fold(
                    p.drop_first(),
                    tool_typed_keys(),
                    Seq::empty(),
                ));
                assert(p.drop_first() =~= t.extra);
            },
        }
        assert(Seq::<(Seq<char>, JVal)>::empty() + t.extra =~= t.extra);
        crate::codec::lemma_extras_fold_passthrough(t.extra, tool_typed_keys(), Seq::empty());
    }
    assert(tool_from_pairs(p) matches Some(w) && w =~= t);
}

} // verus!
