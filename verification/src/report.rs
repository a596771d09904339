//! The document root: format tag, schema version, optional identifying
//! metadata, one results payload, extension slot — and the format gate
//! that every decode passes through.

use vstd::prelude::*;
use crate::codec::{
    collect_extras, dec_opt_str, dec_req_str, enc_opt_str, extras_of, get_opt_str, get_req_str,
    push_extras, strs_set, DecodeError,
};
use crate::extra::{unique_keys, Extra, Extras};
use crate::json::{chars_to_string, obj_lookup, pairs_view, str_chars, str_eq, JVal, Json};
use crate::num::{dec_rep, dec_val, is_digit, parse_dec_u64, push_dec_u64};
use crate::results::{results_from_json, results_jval, Results, ResultsView};

verus! {

/// The fixed literal every conforming document carries as its
/// `reportFormat`.
pub const REPORT_FORMAT: &'static str = "CTRF";

/// A three-component schema version.
#[derive(Clone, Copy, Debug, PartialEq, Eq, Structural)]
pub struct SpecVersion {
    pub major: u64,
    pub minor: u64,
    pub patch: u64,
}

/// The version this library stamps on every report it constructs.
pub open spec fn current_spec_version() -> SpecVersion {
    SpecVersion { major: 0, minor: 0, patch: 0 }
}

/// The wire text of a version: the three components in decimal, dotted.
pub open spec fn version_text(v: SpecVersion) -> Seq<char> {
    dec_rep(v.major as nat) + seq!['.'] + dec_rep(v.minor as nat) + seq!['.'] + dec_rep(
        v.patch as nat,
    )
}

/// The position of the first dot, if any.
pub open spec fn first_dot(s: Seq<char>) -> Option<int>
    decreases s.len(),
{
    if s.len() == 0 {
        None
    } else if s[0] == '.' {
        Some(0)
    } else {
        match first_dot(s.drop_first()) {
            Some(i) => Some(i + 1),
            None => None,
        }
    }
}

/// A version component: decimal digits, no leading zero, fits a `u64`.
pub open spec fn is_ver_token(s: Seq<char>) -> bool {
    crate::num::is_u64_token(s) && (s.len() == 1 || s[0] != '0')
}

/// The version a text parses to: three dot-separated components.
pub open spec fn parse_version_spec(s: Seq<char>) -> Option<SpecVersion> {
    match first_dot(s) {
        None => None,
        Some(i) => {
            let rest = s.skip(i + 1);
            match first_dot(rest) {
                None => None,
                Some(j) => {
                    let a = s.take(i);
                    let b = rest.take(j);
                    let c = rest.skip(j + 1);
                    if is_ver_token(a) && is_ver_token(b) && is_ver_token(c) {
                        Some(
                            SpecVersion {
                                major: dec_val(a) as u64,
                                minor: dec_val(b) as u64,
                                patch: dec_val(c) as u64,
                            },
                        )
                    } else {
                        None
                    }
                },
            }
        },
    }
}

/// Whether `s` is hexadecimal.
pub open spec fn is_hex(c: char) -> bool {
    is_digit(c) || (97 <= c as u32 <= 102) || (65 <= c as u32 <= 70)
}

/// A unique-identifier text: the hyphenated 8-4-4-4-12 hexadecimal form,
/// or the simple 32-hexadecimal form.
pub open spec fn is_uuid_text(s: Seq<char>) -> bool {
    ||| (s.len() == 36 && s[8] == '-' && s[13] == '-' && s[18] == '-' && s[23] == '-' && forall|
        i: int,
    |
        0 <= i < 36 && i != 8 && i != 13 && i != 18 && i != 23 ==> is_hex(#[trigger] s[i]))
    ||| (s.len() == 32 && forall|i: int| 0 <= i < 32 ==> is_hex(#[trigger] s[i]))
}

/// The typed wire keys of a report.
pub open spec fn report_typed_keys() -> Set<Seq<char>> {
    Set::new(
        |s: Seq<char>|
            s == "reportFormat"@ || s == "specVersion"@ || s == "reportId"@ || s == "timestamp"@
                || s == "generatedBy"@ || s == "results"@,
    )
}

/// The top-level element of a conforming document.
pub struct Report {
    report_format: String,
    spec_version: SpecVersion,
    report_id: Option<String>,
    pub timestamp: Option<String>,
    pub generated_by: Option<String>,
    results: Results,
    extra: Extras,
}

/// The model of a [`Report`].
#[verifier::ext_equal]
pub struct ReportView {
    pub report_format: Seq<char>,
    pub spec_version: SpecVersion,
    pub report_id: Option<Seq<char>>,
    pub timestamp: Option<Seq<char>>,
    pub generated_by: Option<Seq<char>>,
    pub results: ResultsView,
    pub extra: Seq<(Seq<char>, JVal)>,
}

impl View for Report {
    type V = ReportView;

    closed spec fn view(&self) -> ReportView {
        ReportView {
            report_format: self.report_format@,
            spec_version: self.spec_version,
            report_id: crate::json::view_opt_str(self.report_id),
            timestamp: crate::json::view_opt_str(self.timestamp),
            generated_by: crate::json::view_opt_str(self.generated_by),
            results: self.results@,
            extra: self.extra@,
        }
    }
}

/// The members of an encoded report, in wire order.
pub open spec fn report_pairs(v: ReportView) -> Seq<(Seq<char>, JVal)> {
    seq![
        ("reportFormat"@, JVal::Str(v.report_format)),
        ("specVersion"@, JVal::Str(version_text(v.spec_version))),
    ] + enc_opt_str("reportId"@, v.report_id) + enc_opt_str("timestamp"@, v.timestamp)
        + enc_opt_str("generatedBy"@, v.generated_by) + seq![("results"@, results_jval(v.results))]
        + v.extra
}

/// The encoded form of a report.
pub open spec fn report_jval(v: ReportView) -> JVal {
    JVal::Obj(report_pairs(v))
}

/// The report a document value decodes to: the format gate requires the
/// fixed tag, the version must parse as three numeric components (any
/// value is tolerated), a present `reportId` must be an identifier text,
/// the results must decode; every other key is routed to the slot.
pub open spec fn report_from_pairs(p: Seq<(Seq<char>, JVal)>) -> Option<ReportView> {
    if dec_req_str(p, "reportFormat"@) == Some(REPORT_FORMAT@) && dec_req_str(p, "specVersion"@)
        is Some && parse_version_spec(dec_req_str(p, "specVersion"@)->Some_0) is Some && dec_opt_str(
        p,
        "reportId"@,
    ) is Some && (dec_opt_str(p, "reportId"@)->Some_0 matches Some(u) ==> is_uuid_text(u))
        && dec_opt_str(p, "timestamp"@) is Some && dec_opt_str(p, "generatedBy"@) is Some && (
    obj_lookup(p, "results"@) matches Some(rv) && results_from_json(rv) is Some) {
        Some(
            ReportView {
                report_format: REPORT_FORMAT@,
                spec_version: parse_version_spec(dec_req_str(p, "specVersion"@)->Some_0)->Some_0,
                report_id: dec_opt_str(p, "reportId"@)->Some_0,
                timestamp: dec_opt_str(p, "timestamp"@)->Some_0,
                generated_by: dec_opt_str(p, "generatedBy"@)->Some_0,
                results: results_from_json(obj_lookup(p, "results"@)->Some_0)->Some_0,
                extra: extras_of(p, report_typed_keys()),
            },
        )
    } else {
        None
    }
}

/// The report a document value decodes to, when it is a well-shaped
/// object that passes the format gate.
pub open spec fn report_from_json(v: JVal) -> Option<ReportView> {
    match v {
        JVal::Obj(p) => report_from_pairs(p),
        _ => None,
    }
}

impl Report {
    /// A freshly constructed or decoded report is self-consistent: its
    /// format tag is the fixed literal and a present id is an
    /// identifier text.
    pub open spec fn wf(&self) -> bool {
        &&& self@.report_format == REPORT_FORMAT@
        &&& (self@.report_id matches Some(u) ==> is_uuid_text(u))
        &&& unique_keys(self@.extra)
    }

    /// Creates a report around the given results, stamping the fixed
    /// format tag and the current schema version. The timestamp, when
    /// given, is recorded as epoch milliseconds in decimal text.
    pub fn new(
        report_id: Option<String>,
        timestamp: Option<u64>,
        generated_by: Option<String>,
        results: Results,
    ) -> (r: Report)
        requires
            report_id matches Some(u) ==> is_uuid_text(u@),
        ensures
            r@.report_format == REPORT_FORMAT@,
            r@.spec_version == current_spec_version(),
            r@.report_id == crate::json::view_opt_str(report_id),
            r@.timestamp == match timestamp {
                Some(ms) => Some(dec_rep(ms as nat)),
                None => None::<Seq<char>>,
            },
            r@.generated_by == crate::json::view_opt_str(generated_by),
            r@.results == results@,
            r@.extra == Seq::<(Seq<char>, JVal)>::empty(),
            r.wf(),
    {
        let timestamp_text = match timestamp {
            Some(ms) => {
                let mut digits: Vec<char> = Vec::new();
                push_dec_u64(ms, &mut digits);
                Some(chars_to_string(&digits))
            },
            None => None,
        };
        let r = Report {
            report_format: REPORT_FORMAT.to_owned(),
            spec_version: SpecVersion { major: 0, minor: 0, patch: 0 },
            report_id,
            timestamp: timestamp_text,
            generated_by,
            results,
            extra: Extras::new(),
        };
        proof {
            assert(r@.extra =~= Seq::<(Seq<char>, JVal)>::empty());
        }
        r
    }

    /// The fixed format tag the report carries.
    pub fn report_format(&self) -> (r: &String)
        ensures
            r@ == self@.report_format,
    {
        &self.report_format
    }

    /// The schema version the report carries.
    pub fn spec_version(&self) -> (r: SpecVersion)
        ensures
            r == self@.spec_version,
    {
        self.spec_version
    }

    /// The report's unique identifier, if any.
    pub fn report_id(&self) -> (r: &Option<String>)
        ensures
            crate::json::view_opt_str(*r) == self@.report_id,
    {
        &self.report_id
    }

    /// Borrows the contained Results.
    pub fn results(&self) -> (r: &Results)
        ensures
            r@ == self@.results,
    {
        &self.results
    }

    /// The extension slot's members, in insertion order.
    pub fn extra(&self) -> (r: &Extras)
        ensures
            r@ == self@.extra,
    {
        &self.extra
    }

    /// Encodes the report as a document value: the typed fields in wire
    /// order, absent fields omitted, extension members inlined after.
    pub fn to_json(&self) -> (r: Json)
        ensures
            r@ == report_jval(self@),
    {
        let mut out: Vec<(String, Json)> = Vec::new();
        out.push((String::from_str("reportFormat"), Json::Str(self.report_format.clone())));
        out.push((String::from_str("specVersion"), Json::Str(version_to_string(self.spec_version))));
        proof {
            assert(pairs_view(out@) =~= seq![
                ("reportFormat"@, JVal::Str(self@.report_format)),
                ("specVersion"@, JVal::Str(version_text(self@.spec_version))),
            ]);
        }
        crate::codec::push_opt_str(&mut out, "reportId", &self.report_id);
        crate::codec::push_opt_str(&mut out, "timestamp", &self.timestamp);
        crate::codec::push_opt_str(&mut out, "generatedBy", &self.generated_by);
        out.push((String::from_str("results"), self.results.to_json()));
        push_extras(&mut out, &self.extra);
        let r = Json::Obj(out);
        proof {
            crate::json::lemma_json_view(r);
            assert(pairs_view(out@) =~= report_pairs(self@));
        }
        r
    }

    /// Decodes a report from a document value, applying the format gate:
    /// a `reportFormat` string other than the fixed tag is rejected with
    /// an error that names the offending value, and no partial report is
    /// produced.
    #[verifier::rlimit(50)]
    pub fn from_json(j: &Json) -> (r: Result<Report, DecodeError>)
        ensures
            match r {
                Ok(v) => report_from_json(j@) == Some(v@) && v.wf(),
                Err(_) => report_from_json(j@) is None,
            },
            j@ matches JVal::Obj(p) ==> match dec_req_str(p, "reportFormat"@) {
                Some(tag) => tag != REPORT_FORMAT@ ==> (r matches Err(e) && e matches
                    DecodeError::Format(t) && t@ == tag),
                None => r is Err,
            },
    {
        let pairs = match j {
            Json::Obj(p) => p,
            _ => {
                return Err(DecodeError::Field(String::from_str("report")));
            },
        };
        let ghost pv = pairs_view(pairs@);
        proof {
            crate::json::lemma_json_view(*j);
        }
        let report_format = match get_req_str(pairs, "reportFormat") {
            Some(s) => s,
            None => {
                return Err(DecodeError::Field(String::from_str("reportFormat")));
            },
        };
        if !str_eq(report_format.as_str(), REPORT_FORMAT) {
            proof {
                assert(dec_req_str(pv, "reportFormat"@) == Some(report_format@));
            }
            return Err(DecodeError::Format(report_format));
        }
        let version_str = match get_req_str(pairs, "specVersion") {
            Some(s) => s,
            None => {
                return Err(DecodeError::Field(String::from_str("specVersion")));
            },
        };
        let spec_version = match parse_version(version_str.as_str()) {
            Some(v) => v,
            None => {
                return Err(DecodeError::Field(String::from_str("specVersion")));
            },
        };
        let report_id = match get_opt_str(pairs, "reportId") {
            Ok(v) => v,
            Err(_) => {
                return Err(DecodeError::Field(String::from_str("reportId")));
            },
        };
        match &report_id {
            Some(u) => {
                if !is_uuid_str(u.as_str()) {
                    return Err(DecodeError::Field(String::from_str("reportId")));
                }
            },
            None => {},
        }
        let timestamp = match get_opt_str(pairs, "timestamp") {
            Ok(v) => v,
            Err(_) => {
                return Err(DecodeError::Field(String::from_str("timestamp")));
            },
        };
        let generated_by = match get_opt_str(pairs, "generatedBy") {
            Ok(v) => v,
            Err(_) => {
                return Err(DecodeError::Field(String::from_str("generatedBy")));
            },
        };
        let results = match Json::lookup(pairs, "results") {
            Some(v) => match Results::from_json(v) {
                Ok(rs) => rs,
                Err(e) => {
                    return Err(e);
                },
            },
            None => {
                return Err(DecodeError::Field(String::from_str("results")));
            },
        };
        let mut typed: Vec<&str> = Vec::new();
        typed.push("reportFormat");
        typed.push("specVersion");
        typed.push("reportId");
        typed.push("timestamp");
        typed.push("generatedBy");
        typed.push("results");
        proof {
            assert forall|s: Seq<char>| strs_set(typed@).contains(s) implies report_typed_keys()
                .contains(s) by {
                let i = choose|i: int| 0 <= i < typed@.len() && typed@[i]@ == s;
            }
            assert forall|s: Seq<char>| report_typed_keys().contains(s) implies strs_set(typed@)
                .contains(s) by {
                if s == "reportFormat"@ {
                    assert(typed@[0]@ == s);
                } else if s == "specVersion"@ {
                    assert(typed@[1]@ == s);
                } else if s == "reportId"@ {
                    assert(typed@[2]@ == s);
                } else if s == "timestamp"@ {
                    assert(typed@[3]@ == s);
                } else if s == "generatedBy"@ {
                    assert(typed@[4]@ == s);
                } else {
                    assert(typed@[5]@ == s);
                }
            }
            assert(strs_set(typed@) =~= report_typed_keys());
        }
        let extra = collect_extras(pairs, typed.as_slice());
        let v = Report {
            report_format,
            spec_version,
            report_id,
            timestamp,
            generated_by,
            results,
            extra,
        };
        proof {
            assert(report_from_json(j@) == Some(v@)) by {
                assert(report_from_pairs(pv) matches Some(w) && w =~= v@);
            }
        }
        Ok(v)
    }
}

/// The wire text of a version, as a string.
pub fn version_to_string(v: SpecVersion) -> (r: String)
    ensures
        r@ == version_text(v),
{
    let mut digits: Vec<char> = Vec::new();
    push_dec_u64(v.major, &mut digits);
    digits.push('.');
    push_dec_u64(v.minor, &mut digits);
    digits.push('.');
    push_dec_u64(v.patch, &mut digits);
    proof {
        assert(digits@ =~= version_text(v));
    }
    chars_to_string(&digits)
}

/// Parses a dotted three-component version.
pub fn parse_version(s: &str) -> (r: Option<SpecVersion>)
    ensures
        r == parse_version_spec(s@),
{
    let cs = str_chars(s);
    let n = cs.len();
    proof {
        assert(s@.skip(0) =~= s@);
    }
    let d1 = match find_dot(&cs, 0) {
        Some(i) => i,
        None => {
            proof {
                lemma_first_dot_none(s@, 0);
            }
            return None;
        },
    };
    proof {
        lemma_first_dot_from(s@, 0, d1 as int);
    }
    let d2 = match find_dot(&cs, d1 + 1) {
        Some(i) => i,
        None => {
            proof {
                lemma_first_dot_none(s@, d1 + 1);
            }
            return None;
        },
    };
    proof {
        lemma_first_dot_from(s@, d1 + 1, d2 as int);
    }
    let a = copy_range(&cs, 0, d1);
    let b = copy_range(&cs, d1 + 1, d2);
    let c = copy_range(&cs, d2 + 1, n);
    proof {
        assert(s@.take(d1 as int) =~= a@);
        assert(s@.skip(d1 + 1).take(d2 - d1 - 1) =~= b@);
        assert(s@.skip(d1 + 1).skip(d2 - d1) =~= c@);
    }
    let ma = ver_token(&a);
    let mb = ver_token(&b);
    let mc = ver_token(&c);
    match (ma, mb, mc) {
        (Some(major), Some(minor), Some(patch)) => Some(SpecVersion { major, minor, patch }),
        _ => None,
    }
}

/// The first dot at or after `from`, as an absolute position.
fn find_dot(cs: &Vec<char>, from: usize) -> (r: Option<usize>)
    requires
        from <= cs@.len(),
    ensures
        match r {
            Some(i) => from <= i < cs@.len() && cs@[i as int] == '.' && forall|k: int|
                from <= k < i ==> cs@[k] != '.',
            None => forall|k: int| from <= k < cs@.len() ==> cs@[k] != '.',
        },
{
    let mut i: usize = from;
    while i < cs.len()
        invariant
            from <= i <= cs@.len(),
            forall|k: int| from <= k < i ==> cs@[k] != '.',
        decreases cs@.len() - i,
    {
        if cs[i] == '.' {
            return Some(i);
        }
        i += 1;
    }
    None
}

/// Copies `cs[lo..hi]` out.
fn copy_range(cs: &Vec<char>, lo: usize, hi: usize) -> (r: Vec<char>)
    requires
        lo <= hi <= cs@.len(),
    ensures
        r@ == cs@.subrange(lo as int, hi as int),
{
    let mut out: Vec<char> = Vec::new();
    let mut i: usize = lo;
    while i < hi
        invariant
            lo <= i <= hi <= cs@.len(),
            out@ == cs@.subrange(lo as int, i as int),
        decreases hi - i,
    {
        out.push(cs[i]);
        proof {
            assert(out@ =~= cs@.subrange(lo as int, i + 1));
        }
        i += 1;
    }
    out
}

/// Checks a version component: digits, no leading zero, fits a `u64`.
fn ver_token(cs: &Vec<char>) -> (r: Option<u64>)
    ensures
        match r {
            Some(v) => is_ver_token(cs@) && v as nat == dec_val(cs@),
            None => !is_ver_token(cs@),
        },
{
    if cs.len() == 0 {
        return None;
    }
    if cs.len() > 1 && cs[0] == '0' {
        return None;
    }
    parse_dec_u64(cs)
}

/// `first_dot` over a tail of the text, from the scan that found the dot.
proof fn lemma_first_dot_from(s: Seq<char>, from: int, i: int)
    requires
        0 <= from <= i < s.len(),
        s[i] == '.',
        forall|k: int| from <= k < i ==> s[k] != '.',
    ensures
        first_dot(s.skip(from)) == Some(i - from),
    decreases i - from,
{
    assert(s.skip(from)[0] == s[from]);
    if from == i {
    } else {
        lemma_first_dot_from(s, from + 1, i);
        assert(s.skip(from).drop_first() =~= s.skip(from + 1));
    }
}

/// A scan that found no dot from `from` on: no first dot in that tail.
proof fn lemma_first_dot_none(s: Seq<char>, from: int)
    requires
        0 <= from <= s.len(),
        forall|k: int| from <= k < s.len() ==> s[k] != '.',
    ensures
        first_dot(s.skip(from)) is None,
    decreases s.len() - from,
{
    if from < s.len() {
        assert(s.skip(from)[0] == s[from]);
        lemma_first_dot_none(s, from + 1);
        assert(s.skip(from).drop_first() =~= s.skip(from + 1));
    }
}

/// Checks an identifier text: hyphenated 8-4-4-4-12, or simple 32 hex.
pub fn is_uuid_str(s: &str) -> (r: bool)
    ensures
        r == is_uuid_text(s@),
{
    let cs = str_chars(s);
    if cs.len() == 36 {
        let mut i: usize = 0;
        while i < 36
            invariant
                0 <= i <= 36,
                cs@.len() == 36,
                cs@ == s@,
                forall|k: int|
                    0 <= k < i ==> if k == 8 || k == 13 || k == 18 || k == 23 {
                        s@[k] == '-'
                    } else {
                        is_hex(#[trigger] s@[k])
                    },
            decreases 36 - i,
        {
            let c = cs[i];
            if i == 8 || i == 13 || i == 18 || i == 23 {
                if c != '-' {
                    return false;
                }
            } else {
                let u = c as u32;
                if !((48 <= u && u <= 57) || (97 <= u && u <= 102) || (65 <= u && u <= 70)) {
                    return false;
                }
            }
            i += 1;
        }
        true
    } else if cs.len() == 32 {
        let mut i: usize = 0;
        while i < 32
            invariant
                0 <= i <= 32,
                cs@.len() == 32,
                cs@ == s@,
                forall|k: int| 0 <= k < i ==> is_hex(#[trigger] s@[k]),
            decreases 32 - i,
        {
            let u = cs[i] as u32;
            if !((48 <= u && u <= 57) || (97 <= u && u <= 102) || (65 <= u && u <= 70)) {
                return false;
            }
            i += 1;
        }
        true
    } else {
        false
    }
}

impl Extra for Report {
    open spec fn extra_view(&self) -> Seq<(Seq<char>, JVal)> {
        self@.extra
    }

    open spec fn extra_wf(&self) -> bool {
        unique_keys(self@.extra)
    }

    fn insert_extra(&mut self, key: String, value: Json) -> (prev: Option<Json>)
        ensures
            final(self)@ == (ReportView { extra: final(self)@.extra, ..old(self)@ }),
    {
        self.extra.insert(key, value)
    }

    fn remove_extra(&mut self, key: &str) -> (prev: Option<Json>)
        ensures
            final(self)@ == (ReportView { extra: final(self)@.extra, ..old(self)@ }),
    {
        self.extra.remove(key)
    }
}


impl Report {
    /// Deserialize a `Report` instance from a string of JSON text: the
    /// text is read as a document value, then the format gate and the
    /// structural checks of [`Report::from_json`] are applied.
    pub fn from_str(s: &str) -> (r: Result<Report, DecodeError>)
        ensures
            r matches Ok(v) ==> v.wf(),
    {
        let j = match crate::parse::parse_text(s) {
            Ok(j) => j,
            Err(e) => {
                return Err(e);
            },
        };
        Self::from_json(&j)
    }

    /// Deserialize a `Report` instance from bytes of JSON text.
    pub fn from_slice(s: &[u8]) -> (r: Result<Report, DecodeError>)
        ensures
            r matches Ok(v) ==> v.wf(),
    {
        match crate::json::bytes_to_str(s) {
            Some(text) => Self::from_str(text),
            None => Err(DecodeError::Syntax(0)),
        }
    }

    /// Interpret a document value as a `Report` instance, with the same
    /// gate and checks as [`Report::from_json`].
    pub fn from_value(v: Json) -> (r: Result<Report, DecodeError>)
        ensures
            match r {
                Ok(rep) => report_from_json(v@) == Some(rep@) && rep.wf(),
                Err(_) => report_from_json(v@) is None,
            },
    {
        Self::from_json(&v)
    }

    /// Outputs the report as a String of compact JSON.
    pub fn to_string(&self) -> (r: Result<String, DecodeError>)
        ensures
            r matches Ok(s) && s@ == crate::text::enc(report_jval(self@)),
    {
        Ok(self.to_json().to_text())
    }

    /// Outputs the report as a pretty-printed String of JSON.
    pub fn to_string_pretty(&self) -> (r: Result<String, DecodeError>)
        ensures
            r matches Ok(s) && s@ == crate::text::enc_pretty(report_jval(self@), Seq::empty()),
    {
        Ok(self.to_json().to_text_pretty())
    }

    /// Outputs the report as a JSON byte vector.
    pub fn to_vec(&self) -> (r: Result<Vec<u8>, DecodeError>)
        ensures
            r matches Ok(b) && b@ == vstd::utf8::encode_utf8(crate::text::enc(report_jval(self@))),
    {
        let text = self.to_json().to_text();
        Ok(text.as_str().as_bytes_vec())
    }

    /// Outputs the report as a pretty-printed JSON byte vector.
    pub fn to_vec_pretty(&self) -> (r: Result<Vec<u8>, DecodeError>)
        ensures
            r matches Ok(b) && b@ == vstd::utf8::encode_utf8(
                crate::text::enc_pretty(report_jval(self@), Seq::empty()),
            ),
    {
        let text = self.to_json().to_text_pretty();
        Ok(text.as_str().as_bytes_vec())
    }
}

} // verus!
