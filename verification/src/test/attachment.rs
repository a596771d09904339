//! An artifact captured during one test, owned by that test.

use vstd::prelude::*;
use crate::codec::{
    collect_extras, dec_req_str, extras_of, get_req_str, push_extras, strs_set, DecodeError,
};
use crate::extra::{Extra, Extras};
use crate::json::{obj_lookup, pairs_view, JVal, Json};

verus! {

/// One captured artifact: name, media type, path, extension slot.
pub struct Attachment {
    /// Required
    pub name: String,
    /// Required
    pub content_type: String,
    /// Required
    pub path: String,
    extra: Extras,
}

/// The model of an [`Attachment`].
#[verifier::ext_equal]
pub struct AttachmentView {
    pub name: Seq<char>,
    pub content_type: Seq<char>,
    pub path: Seq<char>,
    pub extra: Seq<(Seq<char>, JVal)>,
}

impl View for Attachment {
    type V = AttachmentView;

    closed spec fn view(&self) -> AttachmentView {
        AttachmentView {
            name: self.name@,
            content_type: self.content_type@,
            path: self.path@,
            extra: self.extra@,
        }
    }
}

impl Attachment {
    /// The structural invariant: the extension slot has unique keys.
    pub open spec fn wf(&self) -> bool {
        crate::extra::unique_keys(self@.extra)
    }

    /// Creates an attachment with an empty extension slot.
    pub fn new(name: String, content_type: String, path: String) -> (r: Attachment)
        ensures
            r@.name == name@,
            r@.content_type == content_type@,
            r@.path == path@,
            r@.extra.len() == 0,
            r.wf(),
    {
        Attachment { name, content_type, path, extra: Extras::new() }
    }

    /// The extension slot's members, in insertion order.
    pub fn extra(&self) -> (r: &Extras)
        ensures
            r@ == self@.extra,
    {
        &self.extra
    }
}

impl Extra for Attachment {
    open spec fn extra_view(&self) -> Seq<(Seq<char>, JVal)> {
        self@.extra
    }

    open spec fn extra_wf(&self) -> bool {
        self.wf()
    }

    fn insert_extra(&mut self, key: String, value: Json) -> (prev: Option<Json>)
        ensures
            final(self)@.name == old(self)@.name,
            final(self)@.content_type == old(self)@.content_type,
            final(self)@.path == old(self)@.path,
    {
        self.extra.insert(key, value)
    }

    fn remove_extra(&mut self, key: &str) -> (prev: Option<Json>)
        ensures
            final(self)@.name == old(self)@.name,
            final(self)@.content_type == old(self)@.content_type,
            final(self)@.path == old(self)@.path,
    {
        self.extra.remove(key)
    }
}


/// The typed wire keys of an attachment record.
pub open spec fn attachment_typed_keys() -> Set<Seq<char>> {
    Set::new(|s: Seq<char>| s == "name"@ || s == "contentType"@ || s == "path"@)
}

/// The members of an encoded attachment record, in wire order.
pub open spec fn attachment_pairs(v: AttachmentView) -> Seq<(Seq<char>, JVal)> {
    seq![
        ("name"@, JVal::Str(v.name)),
        ("contentType"@, JVal::Str(v.content_type)),
        ("path"@, JVal::Str(v.path)),
    ] + v.extra
}

/// The encoded form of an attachment record.
pub open spec fn attachment_jval(v: AttachmentView) -> JVal {
    JVal::Obj(attachment_pairs(v))
}

/// The attachment a document value decodes to, when it is an object with
/// string `name`, `contentType` and `path` members.
pub open spec fn attachment_from_pairs(p: Seq<(Seq<char>, JVal)>) -> Option<AttachmentView> {
    match (dec_req_str(p, "name"@), dec_req_str(p, "contentType"@), dec_req_str(p, "path"@)) {
        (Some(name), Some(content_type), Some(path)) => Some(
            AttachmentView {
                name,
                content_type,
                path,
                extra: extras_of(p, attachment_typed_keys()),
            },
        ),
        _ => None,
    }
}

/// The attachment a document value decodes to, when it is a well-shaped
/// object.
pub open spec fn attachment_from_json(v: JVal) -> Option<AttachmentView> {
    match v {
        JVal::Obj(p) => attachment_from_pairs(p),
        _ => None,
    }
}

impl Attachment {
    /// Encodes the attachment as a document value: the typed fields in
    /// wire order, extension members inlined after.
    pub fn to_json(&self) -> (r: Json)
        ensures
            r@ == attachment_jval(self@),
    {
        let mut out: Vec<(String, Json)> = Vec::new();
        out.push((String::from_str("name"), Json::Str(self.name.clone())));
        out.push((String::from_str("contentType"), Json::Str(self.content_type.clone())));
        out.push((String::from_str("path"), Json::Str(self.path.clone())));
        push_extras(&mut out, &self.extra);
        let r = Json::Obj(out);
        proof {
            crate::json::lemma_json_view(r);
            assert(pairs_view(out@) =~= attachment_pairs(self@));
        }
        r
    }

    /// Decodes an attachment from a document value: the exact inverse of
    /// the shape [`attachment_from_json`] describes, every unknown
    /// sibling key routed into the extension slot.
    pub fn from_json(j: &Json) -> (r: Result<Attachment, DecodeError>)
        ensures
            match r {
                Ok(v) => attachment_from_json(j@) == Some(v@) && v.wf(),
                Err(_) => attachment_from_json(j@) is None,
            },
    {
        let pairs = match j {
            Json::Obj(p) => p,
            _ => {
                return Err(DecodeError::Field(String::from_str("attachment")));
            },
        };
        let ghost pv = pairs_view(pairs@);
        proof {
            crate::json::lemma_json_view(*j);
        }
        let name = match get_req_str(pairs, "name") {
            Some(s) => s,
            None => {
                return Err(DecodeError::Field(String::from_str("name")));
            },
        };
        let content_type = match get_req_str(pairs, "contentType") {
            Some(s) => s,
            None => {
                return Err(DecodeError::Field(String::from_str("contentType")));
            },
        };
        let path = match get_req_str(pairs, "path") {
            Some(s) => s,
            None => {
                return Err(DecodeError::Field(String::from_str("path")));
            },
        };
        let mut typed: Vec<&str> = Vec::new();
        typed.push("name");
        typed.push("contentType");
        typed.push("path");
        proof {
            assert forall|s: Seq<char>| strs_set(typed@).contains(s)
                implies attachment_typed_keys().contains(s) by {
                let i = choose|i: int| 0 <= i < typed@.len() && typed@[i]@ == s;
            }
            assert forall|s: Seq<char>| attachment_typed_keys().contains(s) implies strs_set(
                typed@,
            ).contains(s) by {
                if s == "name"@ {
                    assert(typed@[0]@ == s);
                } else if s == "contentType"@ {
                    assert(typed@[1]@ == s);
                } else {
                    assert(typed@[2]@ == s);
                }
            }
            assert(strs_set(typed@) =~= attachment_typed_keys());
        }
        let extra = collect_extras(pairs, typed.as_slice());
        let v = Attachment { name, content_type, path, extra };
        proof {
            assert(attachment_from_json(j@) == Some(v@)) by {
                assert(attachment_from_pairs(pv) matches Some(w) && w =~= v@);
            }
        }
        Ok(v)
    }
}


/// Extension round-trip law: encoding an attachment and decoding the
/// result yields the same model, whatever its extension slot holds —
/// any non-typed key inserted into the slot comes back unchanged. The
/// slot's keys must be unique and distinct from the typed wire keys.
pub proof fn lemma_attachment_roundtrip(v: AttachmentView)
    requires
        crate::extra::unique_keys(v.extra),
        forall|j: int| 0 <= j < v.extra.len() ==> !attachment_typed_keys().contains(
            (#[trigger] v.extra[j]).0,
        ),
    ensures
        attachment_from_json(attachment_jval(v)) == Some(v),
{
    reveal_strlit("name");
    reveal_strlit("contentType");
    reveal_strlit("path");
    let head = seq![
        ("name"@, JVal::Str(v.name)),
        ("contentType"@, JVal::Str(v.content_type)),
        ("path"@, JVal::Str(v.path)),
    ];
    let p = attachment_pairs(v);
    assert(p =~= head + v.extra);
    assert("name"@ != "contentType"@ && "path"@ != "contentType"@) by {
        assert("name"@.len() == 4 && "contentType"@.len() == 11 && "path"@.len() == 4);
    }
    assert("name"@ != "path"@) by {
        assert("name"@[0] != "path"@[0]);
    }
    crate::codec::lemma_lookup_concat(head, v.extra, "name"@);
    crate::codec::lemma_lookup_concat(head, v.extra, "contentType"@);
    crate::codec::lemma_lookup_concat(head, v.extra, "path"@);
    assert(head[0] == ("name"@, JVal::Str(v.name)));
    assert(obj_lookup(head, "name"@) == Some(JVal::Str(v.name)));
    let h1 = head.drop_first();
    assert(obj_lookup(head, "contentType"@) == obj_lookup(h1, "contentType"@));
    assert(obj_lookup(head, "path"@) == obj_lookup(h1, "path"@));
    assert(h1 =~= seq![("contentType"@, JVal::Str(v.content_type)), ("path"@, JVal::Str(v.path))]);
    assert(h1[0] == ("contentType"@, JVal::Str(v.content_type)));
    assert(obj_lookup(head, "contentType"@) == Some(JVal::Str(v.content_type)));
    let h2 = h1.drop_first();
    assert(obj_lookup(h1, "path"@) == obj_lookup(h2, "path"@));
    assert(h2 =~= seq![("path"@, JVal::Str(v.path))]);
    assert(h2[0] == ("path"@, JVal::Str(v.path)));
    assert(obj_lookup(head, "path"@) == Some(JVal::Str(v.path)));
    assert(crate::codec::dec_req_str(p, "name"@) == Some(v.name));
    assert(crate::codec::dec_req_str(p, "contentType"@) == Some(v.content_type));
    assert(crate::codec::dec_req_str(p, "path"@) == Some(v.path));
    assert(crate::codec::extras_of(p, attachment_typed_keys()) == v.extra) by {
        assert(attachment_typed_keys().contains("name"@));
        assert(attachment_typed_keys().contains("contentType"@));
        assert(attachment_typed_keys().contains("path"@));
        assert(crate::codec::extras_fold(p, attachment_typed_keys(), Seq::empty())
            == crate::codec::extras_fold(p.drop_first(), attachment_typed_keys(), Seq::empty()));
        assert(p.drop_first() =~= h1 + v.extra);
        assert((h1 + v.extra)[0] == h1[0]);
        assert(crate::codec::extras_fold(h1 + v.extra, attachment_typed_keys(), Seq::empty())
            == crate::codec::extras_fold(
            (h1 + v.extra).drop_first(),
            attachment_typed_keys(),
            Seq::empty(),
        ));
        assert((h1 + v.extra).drop_first() =~= h2 + v.extra);
        assert((h2 + v.extra)[0] == h2[0]);
        assert(crate::codec::extras_fold(h2 + v.extra, attachment_typed_keys(), Seq::empty())
            == crate::codec::extras_fold(
            (h2 + v.extra).drop_first(),
            attachment_typed_keys(),
            Seq::empty(),
        ));
        assert((h2 + v.extra).drop_first() =~= v.extra);
        assert(Seq::<(Seq<char>, JVal)>::empty() + v.extra =~= v.extra);
        crate::codec::lemma_extras_fold_passthrough(v.extra, attachment_typed_keys(), Seq::empty());
    }
    assert(attachment_from_pairs(p) matches Some(w) && w =~= v);
}

} // verus!
