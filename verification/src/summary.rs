//! Aggregate counters over a run's tests, plus its time window.
//!
//! The total `tests` counter is never set directly: each per-status setter
//! re-derives it, so `tests == passed + failed + pending + skipped + other`
//! holds after construction and after every counter mutation.

use vstd::prelude::*;
use crate::codec::{
    collect_extras, dec_opt_usize, dec_req_u64, dec_req_usize, enc_opt_usize, extras_of,
    get_opt_usize, get_req_u64, get_req_usize, push_extras, push_opt_usize, push_req_u64, strs_set,
    DecodeError,
};
use crate::extra::{unique_keys, Extra, Extras};
use crate::json::{obj_lookup, pairs_view, JVal, Json};
use crate::num::dec_rep;

verus! {

/// The run summary. `start` and `stop` are epoch milliseconds; the builder
/// records them without validating their order.
pub struct Summary {
    tests: usize,
    passed: usize,
    failed: usize,
    pending: usize,
    skipped: usize,
    other: usize,
    suites: Option<usize>,
    start: u64,
    stop: u64,
    extra: Extras,
}

/// The model of a [`Summary`].
#[verifier::ext_equal]
pub struct SummaryView {
    pub tests: usize,
    pub passed: usize,
    pub failed: usize,
    pub pending: usize,
    pub skipped: usize,
    pub other: usize,
    pub suites: Option<usize>,
    pub start: u64,
    pub stop: u64,
    pub extra: Seq<(Seq<char>, JVal)>,
}

impl View for Summary {
    type V = SummaryView;

    closed spec fn view(&self) -> SummaryView {
        SummaryView {
            tests: self.tests,
            passed: self.passed,
            failed: self.failed,
            pending: self.pending,
            skipped: self.skipped,
            other: self.other,
            suites: self.suites,
            start: self.start,
            stop: self.stop,
            extra: self.extra@,
        }
    }
}

/// The derived-total invariant: `tests` is the sum of the five counters.
pub open spec fn totals_ok(v: SummaryView) -> bool {
    v.tests == v.passed + v.failed + v.pending + v.skipped + v.other
}

impl Summary {
    /// The structural invariant: the total is derived and the extension
    /// slot has unique keys.
    pub open spec fn wf(&self) -> bool {
        totals_ok(self@) && unique_keys(self@.extra)
    }

    /// Creates a summary for the given time window, all counters zero,
    /// suite count absent.
    pub fn new(start: u64, stop: u64) -> (r: Summary)
        ensures
            r@ == (SummaryView {
                tests: 0,
                passed: 0,
                failed: 0,
                pending: 0,
                skipped: 0,
                other: 0,
                suites: None,
                start: start,
                stop: stop,
                extra: Seq::empty(),
            }),
            r.wf(),
    {
        let r = Summary {
            tests: 0,
            passed: 0,
            failed: 0,
            pending: 0,
            skipped: 0,
            other: 0,
            suites: None,
            start,
            stop,
            extra: Extras::new(),
        };
        proof {
            assert(r@.extra =~= Seq::<(Seq<char>, JVal)>::empty());
        }
        r
    }

    /// Whether every counted test passed.
    pub fn all_passed(&self) -> (r: bool)
        ensures
            r == (self@.passed == self@.tests),
    {
        self.passed == self.tests
    }

    /// Sets the count of passed tests and updates the overall total.
    pub fn passed(&mut self, count: usize)
        requires
            count + old(self)@.failed + old(self)@.pending + old(self)@.skipped + old(
                self,
            )@.other <= usize::MAX,
        ensures
            final(self)@ == (SummaryView { passed: count, tests: final(self)@.tests, ..old(self)@ }),
            totals_ok(final(self)@),
    {
        self.passed = count;
        self.update_tests();
    }

    /// Sets the count of failed tests and updates the overall total.
    pub fn failed(&mut self, count: usize)
        requires
            old(self)@.passed + count + old(self)@.pending + old(self)@.skipped + old(
                self,
            )@.other <= usize::MAX,
        ensures
            final(self)@ == (SummaryView { failed: count, tests: final(self)@.tests, ..old(self)@ }),
            totals_ok(final(self)@),
    {
        self.failed = count;
        self.update_tests();
    }

    /// Sets the count of pending tests and updates the overall total.
    pub fn pending(&mut self, count: usize)
        requires
            old(self)@.passed + old(self)@.failed + count + old(self)@.skipped + old(
                self,
            )@.other <= usize::MAX,
        ensures
            final(self)@ == (SummaryView {
                pending: count,
                tests: final(self)@.tests,
                ..old(self)@
            }),
            totals_ok(final(self)@),
    {
        self.pending = count;
        self.update_tests();
    }

    /// Sets the count of skipped tests and updates the overall total.
    pub fn skipped(&mut self, count: usize)
        requires
            old(self)@.passed + old(self)@.failed + old(self)@.pending + count + old(
                self,
            )@.other <= usize::MAX,
        ensures
            final(self)@ == (SummaryView {
                skipped: count,
                tests: final(self)@.tests,
                ..old(self)@
            }),
            totals_ok(final(self)@),
    {
        self.skipped = count;
        self.update_tests();
    }

    /// Sets the count of other-status tests and updates the overall total.
    pub fn other(&mut self, count: usize)
        requires
            old(self)@.passed + old(self)@.failed + old(self)@.pending + old(self)@.skipped + count
                <= usize::MAX,
        ensures
            final(self)@ == (SummaryView { other: count, tests: final(self)@.tests, ..old(self)@ }),
            totals_ok(final(self)@),
    {
        self.other = count;
        self.update_tests();
    }

    /// Sets the number of suites, which can be absent.
    pub fn suites(&mut self, suites: Option<usize>)
        ensures
            final(self)@ == (SummaryView { suites: suites, ..old(self)@ }),
    {
        self.suites = suites;
    }

    /// Re-derives the total from the five per-status counters.
    fn update_tests(&mut self)
        requires
            old(self)@.passed + old(self)@.failed + old(self)@.pending + old(self)@.skipped + old(
                self,
            )@.other <= usize::MAX,
        ensures
            final(self)@ == (SummaryView { tests: final(self)@.tests, ..old(self)@ }),
            totals_ok(final(self)@),
    {
        self.tests = self.passed + self.failed + self.pending + self.skipped + self.other;
    }

    /// The derived total count of tests.
    pub fn get_tests(&self) -> (r: usize)
        ensures
            r == self@.tests,
    {
        self.tests
    }

    /// The count of passed tests.
    pub fn get_passed(&self) -> (r: usize)
        ensures
            r == self@.passed,
    {
        self.passed
    }

    /// The count of failed tests.
    pub fn get_failed(&self) -> (r: usize)
        ensures
            r == self@.failed,
    {
        self.failed
    }

    /// The count of pending tests.
    pub fn get_pending(&self) -> (r: usize)
        ensures
            r == self@.pending,
    {
        self.pending
    }

    /// The count of skipped tests.
    pub fn get_skipped(&self) -> (r: usize)
        ensures
            r == self@.skipped,
    {
        self.skipped
    }

    /// The count of other-status tests.
    pub fn get_other(&self) -> (r: usize)
        ensures
            r == self@.other,
    {
        self.other
    }

    /// The number of distinct suites, absent when no test declared one.
    pub fn get_suites(&self) -> (r: Option<usize>)
        ensures
            r == self@.suites,
    {
        self.suites
    }

    /// The window start, epoch milliseconds.
    pub fn get_start(&self) -> (r: u64)
        ensures
            r == self@.start,
    {
        self.start
    }

    /// The window stop, epoch milliseconds.
    pub fn get_stop(&self) -> (r: u64)
        ensures
            r == self@.stop,
    {
        self.stop
    }

    /// The extension slot's members, in insertion order.
    pub fn extra(&self) -> (r: &Extras)
        ensures
            r@ == self@.extra,
    {
        &self.extra
    }
}

impl Extra for Summary {
    open spec fn extra_view(&self) -> Seq<(Seq<char>, JVal)> {
        self@.extra
    }

    open spec fn extra_wf(&self) -> bool {
        unique_keys(self@.extra)
    }

    fn insert_extra(&mut self, key: String, value: Json) -> (prev: Option<Json>)
        ensures
            final(self)@ == (SummaryView { extra: final(self)@.extra, ..old(self)@ }),
    {
        self.extra.insert(key, value)
    }

    fn remove_extra(&mut self, key: &str) -> (prev: Option<Json>)
        ensures
            final(self)@ == (SummaryView { extra: final(self)@.extra, ..old(self)@ }),
    {
        self.extra.remove(key)
    }
}


/// The typed wire keys of a summary record.
pub open spec fn summary_typed_keys() -> Set<Seq<char>> {
    Set::new(
        |s: Seq<char>|
            s == "tests"@ || s == "passed"@ || s == "failed"@ || s == "pending"@ || s == "skipped"@
                || s == "other"@ || s == "suites"@ || s == "start"@ || s == "stop"@,
    )
}

/// The members of an encoded summary record, in wire order; an absent
/// suite count is omitted.
pub open spec fn summary_pairs(v: SummaryView) -> Seq<(Seq<char>, JVal)> {
    seq![
        ("tests"@, JVal::Num(dec_rep(v.tests as nat))),
        ("passed"@, JVal::Num(dec_rep(v.passed as nat))),
        ("failed"@, JVal::Num(dec_rep(v.failed as nat))),
        ("pending"@, JVal::Num(dec_rep(v.pending as nat))),
        ("skipped"@, JVal::Num(dec_rep(v.skipped as nat))),
        ("other"@, JVal::Num(dec_rep(v.other as nat))),
    ] + enc_opt_usize("suites"@, v.suites) + seq![
        ("start"@, JVal::Num(dec_rep(v.start as nat))),
        ("stop"@, JVal::Num(dec_rep(v.stop as nat))),
    ] + v.extra
}

/// The encoded form of a summary record.
pub open spec fn summary_jval(v: SummaryView) -> JVal {
    JVal::Obj(summary_pairs(v))
}

/// The summary a document value decodes to, when the six counters and
/// the window are integer members and `suites`, if present, is one too.
/// The counters are taken as the document states them.
pub open spec fn summary_from_pairs(p: Seq<(Seq<char>, JVal)>) -> Option<SummaryView> {
    if dec_req_usize(p, "tests"@) is Some && dec_req_usize(p, "passed"@) is Some && dec_req_usize(
        p,
        "failed"@,
    ) is Some && dec_req_usize(p, "pending"@) is Some && dec_req_usize(p, "skipped"@) is Some
        && dec_req_usize(p, "other"@) is Some && dec_opt_usize(p, "suites"@) is Some && dec_req_u64(
        p,
        "start"@,
    ) is Some && dec_req_u64(p, "stop"@) is Some {
        Some(
            SummaryView {
                tests: dec_req_usize(p, "tests"@)->Some_0,
                passed: dec_req_usize(p, "passed"@)->Some_0,
                failed: dec_req_usize(p, "failed"@)->Some_0,
                pending: dec_req_usize(p, "pending"@)->Some_0,
                skipped: dec_req_usize(p, "skipped"@)->Some_0,
                other: dec_req_usize(p, "other"@)->Some_0,
                suites: dec_opt_usize(p, "suites"@)->Some_0,
                start: dec_req_u64(p, "start"@)->Some_0,
                stop: dec_req_u64(p, "stop"@)->Some_0,
                extra: extras_of(p, summary_typed_keys()),
            },
        )
    } else {
        None
    }
}

/// The summary a document value decodes to, when it is a well-shaped
/// object.
pub open spec fn summary_from_json(v: JVal) -> Option<SummaryView> {
    match v {
        JVal::Obj(p) => summary_from_pairs(p),
        _ => None,
    }
}

impl Summary {
    /// Encodes the summary as a document value: the typed fields in wire
    /// order, an absent suite count omitted, extension members inlined
    /// after.
    pub fn to_json(&self) -> (r: Json)
        ensures
            r@ == summary_jval(self@),
    {
        let mut out: Vec<(String, Json)> = Vec::new();
        push_req_u64(&mut out, "tests", self.tests as u64);
        push_req_u64(&mut out, "passed", self.passed as u64);
        push_req_u64(&mut out, "failed", self.failed as u64);
        push_req_u64(&mut out, "pending", self.pending as u64);
        push_req_u64(&mut out, "skipped", self.skipped as u64);
        push_req_u64(&mut out, "other", self.other as u64);
        push_opt_usize(&mut out, "suites", &self.suites);
        push_req_u64(&mut out, "start", self.start);
        push_req_u64(&mut out, "stop", self.stop);
        push_extras(&mut out, &self.extra);
        let r = Json::Obj(out);
        proof {
            crate::json::lemma_json_view(r);
            assert(pairs_view(out@) =~= summary_pairs(self@));
        }
        r
    }

    /// Decodes a summary from a document value: the exact inverse of the
    /// shape [`summary_from_json`] describes, every unknown sibling key
    /// routed into the extension slot. The counters are taken as the
    /// document states them, consistent or not.
    pub fn from_json(j: &Json) -> (r: Result<Summary, DecodeError>)
        ensures
            match r {
                Ok(v) => summary_from_json(j@) == Some(v@) && unique_keys(v@.extra),
                Err(_) => summary_from_json(j@) is None,
            },
    {
        let pairs = match j {
            Json::Obj(p) => p,
            _ => {
                return Err(DecodeError::Field(String::from_str("summary")));
            },
        };
        let ghost pv = pairs_view(pairs@);
        proof {
            crate::json::lemma_json_view(*j);
        }
        let tests = match get_req_usize(pairs, "tests") {
            Some(v) => v,
            None => {
                return Err(DecodeError::Field(String::from_str("tests")));
            },
        };
        let passed = match get_req_usize(pairs, "passed") {
            Some(v) => v,
            None => {
                return Err(DecodeError::Field(String::from_str("passed")));
            },
        };
        let failed = match get_req_usize(pairs, "failed") {
            Some(v) => v,
            None => {
                return Err(DecodeError::Field(String::from_str("failed")));
            },
        };
        let pending = match get_req_usize(pairs, "pending") {
            Some(v) => v,
            None => {
                return Err(DecodeError::Field(String::from_str("pending")));
            },
        };
        let skipped = match get_req_usize(pairs, "skipped") {
            Some(v) => v,
            None => {
                return Err(DecodeError::Field(String::from_str("skipped")));
            },
        };
        let other = match get_req_usize(pairs, "other") {
            Some(v) => v,
            None => {
                return Err(DecodeError::Field(String::from_str("other")));
            },
        };
        let suites = match get_opt_usize(pairs, "suites") {
            Ok(v) => v,
            Err(_) => {
                return Err(DecodeError::Field(String::from_str("suites")));
            },
        };
        let start = match get_req_u64(pairs, "start") {
            Some(v) => v,
            None => {
                return Err(DecodeError::Field(String::from_str("start")));
            },
        };
        let stop = match get_req_u64(pairs, "stop") {
            Some(v) => v,
            None => {
                return Err(DecodeError::Field(String::from_str("stop")));
            },
        };
        let mut typed: Vec<&str> = Vec::new();
        typed.push("tests");
        typed.push("passed");
        typed.push("failed");
        typed.push("pending");
        typed.push("skipped");
        typed.push("other");
        typed.push("suites");
        typed.push("start");
        typed.push("stop");
        proof {
            assert forall|s: Seq<char>| strs_set(typed@).contains(s) implies summary_typed_keys()
                .contains(s) by {
                let i = choose|i: int| 0 <= i < typed@.len() && typed@[i]@ == s;
            }
            assert forall|s: Seq<char>| summary_typed_keys().contains(s) implies strs_set(typed@)
                .contains(s) by {
                if s == "tests"@ {
                    assert(typed@[0]@ == s);
                } else if s == "passed"@ {
                    assert(typed@[1]@ == s);
                } else if s == "failed"@ {
                    assert(typed@[2]@ == s);
                } else if s == "pending"@ {
                    assert(typed@[3]@ == s);
                } else if s == "skipped"@ {
                    assert(typed@[4]@ == s);
                } else if s == "other"@ {
                    assert(typed@[5]@ == s);
                } else if s == "suites"@ {
                    assert(typed@[6]@ == s);
                } else if s == "start"@ {
                    assert(typed@[7]@ == s);
                } else {
                    assert(typed@[8]@ == s);
                }
            }
            assert(strs_set(typed@) =~= summary_typed_keys());
        }
        let extra = collect_extras(pairs, typed.as_slice());
        let v = Summary { tests, passed, failed, pending, skipped, other, suites, start, stop, extra };
        proof {
            assert(summary_from_json(j@) == Some(v@)) by {
                assert(summary_from_pairs(pv) matches Some(w) && w =~= v@);
            }
        }
        Ok(v)
    }
}


/// Extension round-trip law: encoding a summary and decoding the result
/// yields the same model — the counters, the window, the optional suite
/// count and every extension member come back unchanged. The slot's
/// keys must be unique and distinct from the typed wire keys.
#[verifier::rlimit(100)]
#[verifier::spinoff_prover]
pub proof fn lemma_summary_roundtrip(v: SummaryView)
    requires
        unique_keys(v.extra),
        forall|j: int| 0 <= j < v.extra.len() ==> !summary_typed_keys().contains(
            (#[trigger] v.extra[j]).0,
        ),
    ensures
        summary_from_json(summary_jval(v)) == Some(v),
{
    reveal_strlit("tests");
    reveal_strlit("passed");
    reveal_strlit("failed");
    reveal_strlit("pending");
    reveal_strlit("skipped");
    reveal_strlit("other");
    reveal_strlit("suites");
    reveal_strlit("start");
    reveal_strlit("stop");
    assert("tests"@ != "passed"@) by {
        assert("tests"@.len() == 5 && "passed"@.len() == 6);
    }
    assert("tests"@ != "failed"@) by {
        assert("tests"@.len() == 5 && "failed"@.len() == 6);
    }
    assert("tests"@ != "pending"@) by {
        assert("tests"@.len() == 5 && "pending"@.len() == 7);
    }
    assert("tests"@ != "skipped"@) by {
        assert("tests"@.len() == 5 && "skipped"@.len() == 7);
    }
    assert("tests"@ != "other"@) by {
        assert("tests"@[0] != "other"@[0]);
    }
    assert("tests"@ != "suites"@) by {
        assert("tests"@.len() == 5 && "suites"@.len() == 6);
    }
    assert("tests"@ != "start"@) by {
        assert("tests"@[0] != "start"@[0]);
    }
    assert("tests"@ != "stop"@) by {
        assert("tests"@.len() == 5 && "stop"@.len() == 4);
    }
    assert("passed"@ != "failed"@) by {
        assert("passed"@[0] != "failed"@[0]);
    }
    assert("passed"@ != "pending"@) by {
        assert("passed"@.len() == 6 && "pending"@.len() == 7);
    }
    assert("passed"@ != "skipped"@) by {
        assert("passed"@.len() == 6 && "skipped"@.len() == 7);
    }
    assert("passed"@ != "other"@) by {
        assert("passed"@.len() == 6 && "other"@.len() == 5);
    }
    assert("passed"@ != "suites"@) by {
        assert("passed"@[0] != "suites"@[0]);
    }
    assert("passed"@ != "start"@) by {
        assert("passed"@.len() == 6 && "start"@.len() == 5);
    }
    assert("passed"@ != "stop"@) by {
        assert("passed"@.len() == 6 && "stop"@.len() == 4);
    }
    assert("failed"@ != "pending"@) by {
        assert("failed"@.len() == 6 && "pending"@.len() == 7);
    }
    assert("failed"@ != "skipped"@) by {
        assert("failed"@.len() == 6 && "skipped"@.len() == 7);
    }
    assert("failed"@ != "other"@) by {
        assert("failed"@.len() == 6 && "other"@.len() == 5);
    }
    assert("failed"@ != "suites"@) by {
        assert("failed"@[0] != "suites"@[0]);
    }
    assert("failed"@ != "start"@) by {
        assert("failed"@.len() == 6 && "start"@.len() == 5);
    }
    assert("failed"@ != "stop"@) by {
        assert("failed"@.len() == 6 && "stop"@.len() == 4);
    }
    assert("pending"@ != "skipped"@) by {
        assert("pending"@[0] != "skipped"@[0]);
    }
    assert("pending"@ != "other"@) by {
        assert("pending"@.len() == 7 && "other"@.len() == 5);
    }
    assert("pending"@ != "suites"@) by {
        assert("pending"@.len() == 7 && "suites"@.len() == 6);
    }
    assert("pending"@ != "start"@) by {
        assert("pending"@.len() == 7 && "start"@.len() == 5);
    }
    assert("pending"@ != "stop"@) by {
        assert("pending"@.len() == 7 && "stop"@.len() == 4);
    }
    assert("skipped"@ != "other"@) by {
        assert("skipped"@.len() == 7 && "other"@.len() == 5);
    }
    assert("skipped"@ != "suites"@) by {
        assert("skipped"@.len() == 7 && "suites"@.len() == 6);
    }
    assert("skipped"@ != "start"@) by {
        assert("skipped"@.len() == 7 && "start"@.len() == 5);
    }
    assert("skipped"@ != "stop"@) by {
        assert("skipped"@.len() == 7 && "stop"@.len() == 4);
    }
    assert("other"@ != "suites"@) by {
        assert("other"@.len() == 5 && "suites"@.len() == 6);
    }
    assert("other"@ != "start"@) by {
        assert("other"@[0] != "start"@[0]);
    }
    assert("other"@ != "stop"@) by {
        assert("other"@.len() == 5 && "stop"@.len() == 4);
    }
    assert("suites"@ != "start"@) by {
        assert("suites"@.len() == 6 && "start"@.len() == 5);
    }
    assert("suites"@ != "stop"@) by {
        assert("suites"@.len() == 6 && "stop"@.len() == 4);
    }
    assert("start"@ != "stop"@) by {
        assert("start"@.len() == 5 && "stop"@.len() == 4);
    }
    crate::num::lemma_dec_rep_digits(v.tests as nat);
    crate::num::lemma_dec_rep_val(v.tests as nat);
    crate::num::lemma_dec_rep_digits(v.passed as nat);
    crate::num::lemma_dec_rep_val(v.passed as nat);
    crate::num::lemma_dec_rep_digits(v.failed as nat);
    crate::num::lemma_dec_rep_val(v.failed as nat);
    crate::num::lemma_dec_rep_digits(v.pending as nat);
    crate::num::lemma_dec_rep_val(v.pending as nat);
    crate::num::lemma_dec_rep_digits(v.skipped as nat);
    crate::num::lemma_dec_rep_val(v.skipped as nat);
    crate::num::lemma_dec_rep_digits(v.other as nat);
    crate::num::lemma_dec_rep_val(v.other as nat);
    crate::num::lemma_dec_rep_digits(v.start as nat);
    crate::num::lemma_dec_rep_val(v.start as nat);
    crate::num::lemma_dec_rep_digits(v.stop as nat);
    crate::num::lemma_dec_rep_val(v.stop as nat);
    let p = summary_pairs(v);
    match v.suites {
        Some(n) => {
            crate::num::lemma_dec_rep_digits(n as nat);
            crate::num::lemma_dec_rep_val(n as nat);
        let g = seq![
        ("tests"@, JVal::Num(dec_rep(v.tests as nat))),
        ("passed"@, JVal::Num(dec_rep(v.passed as nat))),
        ("failed"@, JVal::Num(dec_rep(v.failed as nat))),
        ("pending"@, JVal::Num(dec_rep(v.pending as nat))),
        ("skipped"@, JVal::Num(dec_rep(v.skipped as nat))),
        ("other"@, JVal::Num(dec_rep(v.other as nat))),
        ("suites"@, JVal::Num(dec_rep(n as nat))),
        ("start"@, JVal::Num(dec_rep(v.start as nat))),
        ("stop"@, JVal::Num(dec_rep(v.stop as nat))),
    ];
        assert(p =~= g + v.extra);
        let e = v.extra;
        let s0 = g + e;
        assert(s0 =~= seq![("tests"@, JVal::Num(dec_rep(v.tests as nat))), ("passed"@, JVal::Num(dec_rep(v.passed as nat))), ("failed"@, JVal::Num(dec_rep(v.failed as nat))), ("pending"@, JVal::Num(dec_rep(v.pending as nat))), ("skipped"@, JVal::Num(dec_rep(v.skipped as nat))), ("other"@, JVal::Num(dec_rep(v.other as nat))), ("suites"@, JVal::Num(dec_rep(n as nat))), ("start"@, JVal::Num(dec_rep(v.start as nat))), ("stop"@, JVal::Num(dec_rep(v.stop as nat)))] + e);
        assert(s0[0] == ("tests"@, JVal::Num(dec_rep(v.tests as nat))));
        assert(obj_lookup(s0, "passed"@) == obj_lookup(s0.drop_first(), "passed"@));
        assert(obj_lookup(s0, "failed"@) == obj_lookup(s0.drop_first(), "failed"@));
        assert(obj_lookup(s0, "pending"@) == obj_lookup(s0.drop_first(), "pending"@));
        assert(obj_lookup(s0, "skipped"@) == obj_lookup(s0.drop_first(), "skipped"@));
        assert(obj_lookup(s0, "other"@) == obj_lookup(s0.drop_first(), "other"@));
        assert(obj_lookup(s0, "suites"@) == obj_lookup(s0.drop_first(), "suites"@));
        assert(obj_lookup(s0, "start"@) == obj_lookup(s0.drop_first(), "start"@));
        assert(obj_lookup(s0, "stop"@) == obj_lookup(s0.drop_first(), "stop"@));
        assert(obj_lookup(s0, "tests"@) == Some(JVal::Num(dec_rep(v.tests as nat))));
        assert(summary_typed_keys().contains("tests"@));
        assert(crate::codec::extras_fold(s0, summary_typed_keys(), Seq::empty()) == crate::codec::extras_fold(s0.drop_first(), summary_typed_keys(), Seq::empty()));
        let s1 = s0.drop_first();
        assert(s1 =~= seq![("passed"@, JVal::Num(dec_rep(v.passed as nat))), ("failed"@, JVal::Num(dec_rep(v.failed as nat))), ("pending"@, JVal::Num(dec_rep(v.pending as nat))), ("skipped"@, JVal::Num(dec_rep(v.skipped as nat))), ("other"@, JVal::Num(dec_rep(v.other as nat))), ("suites"@, JVal::Num(dec_rep(n as nat))), ("start"@, JVal::Num(dec_rep(v.start as nat))), ("stop"@, JVal::Num(dec_rep(v.stop as nat)))] + e);
        assert(s1[0] == ("passed"@, JVal::Num(dec_rep(v.passed as nat))));
        assert(obj_lookup(s1, "failed"@) == obj_lookup(s1.drop_first(), "failed"@));
        assert(obj_lookup(s1, "pending"@) == obj_lookup(s1.drop_first(), "pending"@));
        assert(obj_lookup(s1, "skipped"@) == obj_lookup(s1.drop_first(), "skipped"@));
        assert(obj_lookup(s1, "other"@) == obj_lookup(s1.drop_first(), "other"@));
        assert(obj_lookup(s1, "suites"@) == obj_lookup(s1.drop_first(), "suites"@));
        assert(obj_lookup(s1, "start"@) == obj_lookup(s1.drop_first(), "start"@));
        assert(obj_lookup(s1, "stop"@) == obj_lookup(s1.drop_first(), "stop"@));
        assert(obj_lookup(s1, "passed"@) == Some(JVal::Num(dec_rep(v.passed as nat))));
        assert(summary_typed_keys().contains("passed"@));
        assert(crate::codec::extras_fold(s1, summary_typed_keys(), Seq::empty()) == crate::codec::extras_fold(s1.drop_first(), summary_typed_keys(), Seq::empty()));
        let s2 = s1.drop_first();
        assert(s2 =~= seq![("failed"@, JVal::Num(dec_rep(v.failed as nat))), ("pending"@, JVal::Num(dec_rep(v.pending as nat))), ("skipped"@, JVal::Num(dec_rep(v.skipped as nat))), ("other"@, JVal::Num(dec_rep(v.other as nat))), ("suites"@, JVal::Num(dec_rep(n as nat))), ("start"@, JVal::Num(dec_rep(v.start as nat))), ("stop"@, JVal::Num(dec_rep(v.stop as nat)))] + e);
        assert(s2[0] == ("failed"@, JVal::Num(dec_rep(v.failed as nat))));
        assert(obj_lookup(s2, "pending"@) == obj_lookup(s2.drop_first(), "pending"@));
        assert(obj_lookup(s2, "skipped"@) == obj_lookup(s2.drop_first(), "skipped"@));
        assert(obj_lookup(s2, "other"@) == obj_lookup(s2.drop_first(), "other"@));
        assert(obj_lookup(s2, "suites"@) == obj_lookup(s2.drop_first(), "suites"@));
        assert(obj_lookup(s2, "start"@) == obj_lookup(s2.drop_first(), "start"@));
        assert(obj_lookup(s2, "stop"@) == obj_lookup(s2.drop_first(), "stop"@));
        assert(obj_lookup(s2, "failed"@) == Some(JVal::Num(dec_rep(v.failed as nat))));
        assert(summary_typed_keys().contains("failed"@));
        assert(crate::codec::extras_fold(s2, summary_typed_keys(), Seq::empty()) == crate::codec::extras_fold(s2.drop_first(), summary_typed_keys(), Seq::empty()));
        let s3 = s2.drop_first();
        assert(s3 =~= seq![("pending"@, JVal::Num(dec_rep(v.pending as nat))), ("skipped"@, JVal::Num(dec_rep(v.skipped as nat))), ("other"@, JVal::Num(dec_rep(v.other as nat))), ("suites"@, JVal::Num(dec_rep(n as nat))), ("start"@, JVal::Num(dec_rep(v.start as nat))), ("stop"@, JVal::Num(dec_rep(v.stop as nat)))] + e);
        assert(s3[0] == ("pending"@, JVal::Num(dec_rep(v.pending as nat))));
        assert(obj_lookup(s3, "skipped"@) == obj_lookup(s3.drop_first(), "skipped"@));
        assert(obj_lookup(s3, "other"@) == obj_lookup(s3.drop_first(), "other"@));
        assert(obj_lookup(s3, "suites"@) == obj_lookup(s3.drop_first(), "suites"@));
        assert(obj_lookup(s3, "start"@) == obj_lookup(s3.drop_first(), "start"@));
        assert(obj_lookup(s3, "stop"@) == obj_lookup(s3.drop_first(), "stop"@));
        assert(obj_lookup(s3, "pending"@) == Some(JVal::Num(dec_rep(v.pending as nat))));
        assert(summary_typed_keys().contains("pending"@));
        assert(crate::codec::extras_fold(s3, summary_typed_keys(), Seq::empty()) == crate::codec::extras_fold(s3.drop_first(), summary_typed_keys(), Seq::empty()));
        let s4 = s3.drop_first();
        assert(s4 =~= seq![("skipped"@, JVal::Num(dec_rep(v.skipped as nat))), ("other"@, JVal::Num(dec_rep(v.other as nat))), ("suites"@, JVal::Num(dec_rep(n as nat))), ("start"@, JVal::Num(dec_rep(v.start as nat))), ("stop"@, JVal::Num(dec_rep(v.stop as nat)))] + e);
        assert(s4[0] == ("skipped"@, JVal::Num(dec_rep(v.skipped as nat))));
        assert(obj_lookup(s4, "other"@) == obj_lookup(s4.drop_first(), "other"@));
        assert(obj_lookup(s4, "suites"@) == obj_lookup(s4.drop_first(), "suites"@));
        assert(obj_lookup(s4, "start"@) == obj_lookup(s4.drop_first(), "start"@));
        assert(obj_lookup(s4, "stop"@) == obj_lookup(s4.drop_first(), "stop"@));
        assert(obj_lookup(s4, "skipped"@) == Some(JVal::Num(dec_rep(v.skipped as nat))));
        assert(summary_typed_keys().contains("skipped"@));
        assert(crate::codec::extras_fold(s4, summary_typed_keys(), Seq::empty()) == crate::codec::extras_fold(s4.drop_first(), summary_typed_keys(), Seq::empty()));
        let s5 = s4.drop_first();
        assert(s5 =~= seq![("other"@, JVal::Num(dec_rep(v.other as nat))), ("suites"@, JVal::Num(dec_rep(n as nat))), ("start"@, JVal::Num(dec_rep(v.start as nat))), ("stop"@, JVal::Num(dec_rep(v.stop as nat)))] + e);
        assert(s5[0] == ("other"@, JVal::Num(dec_rep(v.other as nat))));
        assert(obj_lookup(s5, "suites"@) == obj_lookup(s5.drop_first(), "suites"@));
        assert(obj_lookup(s5, "start"@) == obj_lookup(s5.drop_first(), "start"@));
        assert(obj_lookup(s5, "stop"@) == obj_lookup(s5.drop_first(), "stop"@));
        assert(obj_lookup(s5, "other"@) == Some(JVal::Num(dec_rep(v.other as nat))));
        assert(summary_typed_keys().contains("other"@));
        assert(crate::codec::extras_fold(s5, summary_typed_keys(), Seq::empty()) == crate::codec::extras_fold(s5.drop_first(), summary_typed_keys(), Seq::empty()));
        let s6 = s5.drop_first();
        assert(s6 =~= seq![("suites"@, JVal::Num(dec_rep(n as nat))), ("start"@, JVal::Num(dec_rep(v.start as nat))), ("stop"@, JVal::Num(dec_rep(v.stop as nat)))] + e);
        assert(s6[0] == ("suites"@, JVal::Num(dec_rep(n as nat))));
        assert(obj_lookup(s6, "start"@) == obj_lookup(s6.drop_first(), "start"@));
        assert(obj_lookup(s6, "stop"@) == obj_lookup(s6.drop_first(), "stop"@));
        assert(obj_lookup(s6, "suites"@) == Some(JVal::Num(dec_rep(n as nat))));
        assert(summary_typed_keys().contains("suites"@));
        assert(crate::codec::extras_fold(s6, summary_typed_keys(), Seq::empty()) == crate::codec::extras_fold(s6.drop_first(), summary_typed_keys(), Seq::empty()));
        let s7 = s6.drop_first();
        assert(s7 =~= seq![("start"@, JVal::Num(dec_rep(v.start as nat))), ("stop"@, JVal::Num(dec_rep(v.stop as nat)))] + e);
        assert(s7[0] == ("start"@, JVal::Num(dec_rep(v.start as nat))));
        assert(obj_lookup(s7, "stop"@) == obj_lookup(s7.drop_first(), "stop"@));
        assert(obj_lookup(s7, "start"@) == Some(JVal::Num(dec_rep(v.start as nat))));
        assert(summary_typed_keys().contains("start"@));
        assert(crate::codec::extras_fold(s7, summary_typed_keys(), Seq::empty()) == crate::codec::extras_fold(s7.drop_first(), summary_typed_keys(), Seq::empty()));
        let s8 = s7.drop_first();
        assert(s8 =~= seq![("stop"@, JVal::Num(dec_rep(v.stop as nat)))] + e);
        assert(s8[0] == ("stop"@, JVal::Num(dec_rep(v.stop as nat))));
        assert(obj_lookup(s8, "stop"@) == Some(JVal::Num(dec_rep(v.stop as nat))));
        assert(summary_typed_keys().contains("stop"@));
        assert(crate::codec::extras_fold(s8, summary_typed_keys(), Seq::empty()) == crate::codec::extras_fold(s8.drop_first(), summary_typed_keys(), Seq::empty()));
        let s9 = s8.drop_first();
        assert(s9 =~= e);
        assert(Seq::<(Seq<char>, JVal)>::empty() + e =~= e);
        crate::codec::lemma_extras_fold_passthrough(e, summary_typed_keys(), Seq::empty());
        assert(crate::codec::extras_of(p, summary_typed_keys()) == e);
        },
        None => {
        let g = seq![
        ("tests"@, JVal::Num(dec_rep(v.tests as nat))),
        ("passed"@, JVal::Num(dec_rep(v.passed as nat))),
        ("failed"@, JVal::Num(dec_rep(v.failed as nat))),
        ("pending"@, JVal::Num(dec_rep(v.pending as nat))),
        ("skipped"@, JVal::Num(dec_rep(v.skipped as nat))),
        ("other"@, JVal::Num(dec_rep(v.other as nat))),
        ("start"@, JVal::Num(dec_rep(v.start as nat))),
        ("stop"@, JVal::Num(dec_rep(v.stop as nat))),
    ];
        assert(p =~= g + v.extra);
        let e = v.extra;
        let s0 = g + e;
        assert(s0 =~= seq![("tests"@, JVal::Num(dec_rep(v.tests as nat))), ("passed"@, JVal::Num(dec_rep(v.passed as nat))), ("failed"@, JVal::Num(dec_rep(v.failed as nat))), ("pending"@, JVal::Num(dec_rep(v.pending as nat))), ("skipped"@, JVal::Num(dec_rep(v.skipped as nat))), ("other"@, JVal::Num(dec_rep(v.other as nat))), ("start"@, JVal::Num(dec_rep(v.start as nat))), ("stop"@, JVal::Num(dec_rep(v.stop as nat)))] + e);
        assert(s0[0] == ("tests"@, JVal::Num(dec_rep(v.tests as nat))));
        assert(obj_lookup(s0, "passed"@) == obj_lookup(s0.drop_first(), "passed"@));
        assert(obj_lookup(s0, "failed"@) == obj_lookup(s0.drop_first(), "failed"@));
        assert(obj_lookup(s0, "pending"@) == obj_lookup(s0.drop_first(), "pending"@));
        assert(obj_lookup(s0, "skipped"@) == obj_lookup(s0.drop_first(), "skipped"@));
        assert(obj_lookup(s0, "other"@) == obj_lookup(s0.drop_first(), "other"@));
        assert(obj_lookup(s0, "start"@) == obj_lookup(s0.drop_first(), "start"@));
        assert(obj_lookup(s0, "stop"@) == obj_lookup(s0.drop_first(), "stop"@));
        assert(obj_lookup(s0, "tests"@) == Some(JVal::Num(dec_rep(v.tests as nat))));
        assert(summary_typed_keys().contains("tests"@));
        assert(crate::codec::extras_fold(s0, summary_typed_keys(), Seq::empty()) == crate::codec::extras_fold(s0.drop_first(), summary_typed_keys(), Seq::empty()));
        let s1 = s0.drop_first();
        assert(s1 =~= seq![("passed"@, JVal::Num(dec_rep(v.passed as nat))), ("failed"@, JVal::Num(dec_rep(v.failed as nat))), ("pending"@, JVal::Num(dec_rep(v.pending as nat))), ("skipped"@, JVal::Num(dec_rep(v.skipped as nat))), ("other"@, JVal::Num(dec_rep(v.other as nat))), ("start"@, JVal::Num(dec_rep(v.start as nat))), ("stop"@, JVal::Num(dec_rep(v.stop as nat)))] + e);
        assert(s1[0] == ("passed"@, JVal::Num(dec_rep(v.passed as nat))));
        assert(obj_lookup(s1, "failed"@) == obj_lookup(s1.drop_first(), "failed"@));
        assert(obj_lookup(s1, "pending"@) == obj_lookup(s1.drop_first(), "pending"@));
        assert(obj_lookup(s1, "skipped"@) == obj_lookup(s1.drop_first(), "skipped"@));
        assert(obj_lookup(s1, "other"@) == obj_lookup(s1.drop_first(), "other"@));
        assert(obj_lookup(s1, "start"@) == obj_lookup(s1.drop_first(), "start"@));
        assert(obj_lookup(s1, "stop"@) == obj_lookup(s1.drop_first(), "stop"@));
        assert(obj_lookup(s1, "passed"@) == Some(JVal::Num(dec_rep(v.passed as nat))));
        assert(summary_typed_keys().contains("passed"@));
        assert(crate::codec::extras_fold(s1, summary_typed_keys(), Seq::empty()) == crate::codec::extras_fold(s1.drop_first(), summary_typed_keys(), Seq::empty()));
        let s2 = s1.drop_first();
        assert(s2 =~= seq![("failed"@, JVal::Num(dec_rep(v.failed as nat))), ("pending"@, JVal::Num(dec_rep(v.pending as nat))), ("skipped"@, JVal::Num(dec_rep(v.skipped as nat))), ("other"@, JVal::Num(dec_rep(v.other as nat))), ("start"@, JVal::Num(dec_rep(v.start as nat))), ("stop"@, JVal::Num(dec_rep(v.stop as nat)))] + e);
        assert(s2[0] == ("failed"@, JVal::Num(dec_rep(v.failed as nat))));
        assert(obj_lookup(s2, "pending"@) == obj_lookup(s2.drop_first(), "pending"@));
        assert(obj_lookup(s2, "skipped"@) == obj_lookup(s2.drop_first(), "skipped"@));
        assert(obj_lookup(s2, "other"@) == obj_lookup(s2.drop_first(), "other"@));
        assert(obj_lookup(s2, "start"@) == obj_lookup(s2.drop_first(), "start"@));
        assert(obj_lookup(s2, "stop"@) == obj_lookup(s2.drop_first(), "stop"@));
        assert(obj_lookup(s2, "failed"@) == Some(JVal::Num(dec_rep(v.failed as nat))));
        assert(summary_typed_keys().contains("failed"@));
        assert(crate::codec::extras_fold(s2, summary_typed_keys(), Seq::empty()) == crate::codec::extras_fold(s2.drop_first(), summary_typed_keys(), Seq::empty()));
        let s3 = s2.drop_first();
        assert(s3 =~= seq![("pending"@, JVal::Num(dec_rep(v.pending as nat))), ("skipped"@, JVal::Num(dec_rep(v.skipped as nat))), ("other"@, JVal::Num(dec_rep(v.other as nat))), ("start"@, JVal::Num(dec_rep(v.start as nat))), ("stop"@, JVal::Num(dec_rep(v.stop as nat)))] + e);
        assert(s3[0] == ("pending"@, JVal::Num(dec_rep(v.pending as nat))));
        assert(obj_lookup(s3, "skipped"@) == obj_lookup(s3.drop_first(), "skipped"@));
        assert(obj_lookup(s3, "other"@) == obj_lookup(s3.drop_first(), "other"@));
        assert(obj_lookup(s3, "start"@) == obj_lookup(s3.drop_first(), "start"@));
        assert(obj_lookup(s3, "stop"@) == obj_lookup(s3.drop_first(), "stop"@));
        assert(obj_lookup(s3, "pending"@) == Some(JVal::Num(dec_rep(v.pending as nat))));
        assert(summary_typed_keys().contains("pending"@));
        assert(crate::codec::extras_fold(s3, summary_typed_keys(), Seq::empty()) == crate::codec::extras_fold(s3.drop_first(), summary_typed_keys(), Seq::empty()));
        let s4 = s3.drop_first();
        assert(s4 =~= seq![("skipped"@, JVal::Num(dec_rep(v.skipped as nat))), ("other"@, JVal::Num(dec_rep(v.other as nat))), ("start"@, JVal::Num(dec_rep(v.start as nat))), ("stop"@, JVal::Num(dec_rep(v.stop as nat)))] + e);
        assert(s4[0] == ("skipped"@, JVal::Num(dec_rep(v.skipped as nat))));
        assert(obj_lookup(s4, "other"@) == obj_lookup(s4.drop_first(), "other"@));
        assert(obj_lookup(s4, "start"@) == obj_lookup(s4.drop_first(), "start"@));
        assert(obj_lookup(s4, "stop"@) == obj_lookup(s4.drop_first(), "stop"@));
        assert(obj_lookup(s4, "skipped"@) == Some(JVal::Num(dec_rep(v.skipped as nat))));
        assert(summary_typed_keys().contains("skipped"@));
        assert(crate::codec::extras_fold(s4, summary_typed_keys(), Seq::empty()) == crate::codec::extras_fold(s4.drop_first(), summary_typed_keys(), Seq::empty()));
        let s5 = s4.drop_first();
        assert(s5 =~= seq![("other"@, JVal::Num(dec_rep(v.other as nat))), ("start"@, JVal::Num(dec_rep(v.start as nat))), ("stop"@, JVal::Num(dec_rep(v.stop as nat)))] + e);
        assert(s5[0] == ("other"@, JVal::Num(dec_rep(v.other as nat))));
        assert(obj_lookup(s5, "start"@) == obj_lookup(s5.drop_first(), "start"@));
        assert(obj_lookup(s5, "stop"@) == obj_lookup(s5.drop_first(), "stop"@));
        assert(obj_lookup(s5, "other"@) == Some(JVal::Num(dec_rep(v.other as nat))));
        assert(summary_typed_keys().contains("other"@));
        assert(crate::codec::extras_fold(s5, summary_typed_keys(), Seq::empty()) == crate::codec::extras_fold(s5.drop_first(), summary_typed_keys(), Seq::empty()));
        let s6 = s5.drop_first();
        assert(s6 =~= seq![("start"@, JVal::Num(dec_rep(v.start as nat))), ("stop"@, JVal::Num(dec_rep(v.stop as nat)))] + e);
        assert(s6[0] == ("start"@, JVal::Num(dec_rep(v.start as nat))));
        assert(obj_lookup(s6, "stop"@) == obj_lookup(s6.drop_first(), "stop"@));
        assert(obj_lookup(s6, "start"@) == Some(JVal::Num(dec_rep(v.start as nat))));
        assert(summary_typed_keys().contains("start"@));
        assert(crate::codec::extras_fold(s6, summary_typed_keys(), Seq::empty()) == crate::codec::extras_fold(s6.drop_first(), summary_typed_keys(), Seq::empty()));
        let s7 = s6.drop_first();
        assert(s7 =~= seq![("stop"@, JVal::Num(dec_rep(v.stop as nat)))] + e);
        assert(s7[0] == ("stop"@, JVal::Num(dec_rep(v.stop as nat))));
        assert(obj_lookup(s7, "stop"@) == Some(JVal::Num(dec_rep(v.stop as nat))));
        assert(summary_typed_keys().contains("stop"@));
        assert(crate::codec::extras_fold(s7, summary_typed_keys(), Seq::empty()) == crate::codec::extras_fold(s7.drop_first(), summary_typed_keys(), Seq::empty()));
        let s8 = s7.drop_first();
        assert(s8 =~= e);
        crate::extra::lemma_lookup_absent(e, "suites"@);
        assert(obj_lookup(s0, "suites"@) == obj_lookup(s0.drop_first(), "suites"@));
        assert(obj_lookup(s1, "suites"@) == obj_lookup(s1.drop_first(), "suites"@));
        assert(obj_lookup(s2, "suites"@) == obj_lookup(s2.drop_first(), "suites"@));
        assert(obj_lookup(s3, "suites"@) == obj_lookup(s3.drop_first(), "suites"@));
        assert(obj_lookup(s4, "suites"@) == obj_lookup(s4.drop_first(), "suites"@));
        assert(obj_lookup(s5, "suites"@) == obj_lookup(s5.drop_first(), "suites"@));
        assert(obj_lookup(s6, "suites"@) == obj_lookup(s6.drop_first(), "suites"@));
        assert(obj_lookup(s7, "suites"@) == obj_lookup(s7.drop_first(), "suites"@));
        assert(obj_lookup(s0, "suites"@) is None);
        assert(Seq::<(Seq<char>, JVal)>::empty() + e =~= e);
        crate::codec::lemma_extras_fold_passthrough(e, summary_typed_keys(), Seq::empty());
        assert(crate::codec::extras_of(p, summary_typed_keys()) == e);
        },
    }
    assert(summary_from_pairs(p) matches Some(w) && w =~= v);
}

} // verus!
