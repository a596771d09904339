//! One test outcome, with its sub-steps, attachments, diagnostic and
//! classification fields, and extension slot.

use vstd::prelude::*;
use crate::codec::{
    collect_extras, dec_opt_bool, dec_opt_str, dec_opt_u64, dec_opt_usize, dec_req_str,
    dec_req_u64, dec_strs, enc_arr, enc_obj, enc_opt_bool, enc_opt_str, enc_opt_u64, enc_opt_usize,
    enc_strs, extras_of, get_opt_bool, get_opt_str, get_opt_u64, get_opt_usize, get_req_str,
    get_strs, push_extras, push_opt_bool, push_opt_str, push_opt_u64, push_opt_usize, push_req_u64,
    push_strs, strs_set, DecodeError,
};
use crate::extra::{unique_keys, Extra, Extras};
use crate::json::{obj_lookup, pairs_view, str_eq, view_opt_str, view_strs, JVal, Json};
use crate::num::dec_rep;
use crate::test::attachment::{attachment_from_json, attachment_jval, Attachment, AttachmentView};
use crate::test::step::{step_from_json, step_jval, Step, StepView};

pub mod attachment;
pub mod step;

verus! {

/// The closed outcome enumeration used by both tests and steps.
#[derive(Clone, Copy, Debug, PartialEq, Eq, Structural)]
pub enum Status {
    Pending,
    Skipped,
    Failed,
    Passed,
    Other,
}

/// One observed test outcome. `duration` is always whole milliseconds.
pub struct Test {
    name: String,
    status: Status,
    duration: u64,
    pub start: Option<u64>,
    pub stop: Option<u64>,
    pub suite: Option<String>,
    pub message: Option<String>,
    pub trace: Option<String>,
    pub line: Option<usize>,
    pub ai: Option<String>,
    pub raw_status: Option<String>,
    pub tags: Vec<String>,
    pub test_type: Option<String>,
    pub filepath: Option<String>,
    pub retries: Option<usize>,
    pub flaky: Option<bool>,
    pub stdout: Vec<String>,
    pub stderr: Vec<String>,
    pub thread_id: Option<String>,
    pub browser: Option<String>,
    pub device: Option<String>,
    pub screenshot: Option<String>,
    pub parameters: Extras,
    pub steps: Vec<Step>,
    pub attachments: Vec<Attachment>,
    extra: Extras,
}

/// The model of a [`Test`].
#[verifier::ext_equal]
pub struct TestView {
    pub name: Seq<char>,
    pub status: Status,
    pub duration: u64,
    pub start: Option<u64>,
    pub stop: Option<u64>,
    pub suite: Option<Seq<char>>,
    pub message: Option<Seq<char>>,
    pub trace: Option<Seq<char>>,
    pub line: Option<usize>,
    pub ai: Option<Seq<char>>,
    pub raw_status: Option<Seq<char>>,
    pub tags: Seq<Seq<char>>,
    pub test_type: Option<Seq<char>>,
    pub filepath: Option<Seq<char>>,
    pub retries: Option<usize>,
    pub flaky: Option<bool>,
    pub stdout: Seq<Seq<char>>,
    pub stderr: Seq<Seq<char>>,
    pub thread_id: Option<Seq<char>>,
    pub browser: Option<Seq<char>>,
    pub device: Option<Seq<char>>,
    pub screenshot: Option<Seq<char>>,
    pub parameters: Seq<(Seq<char>, JVal)>,
    pub steps: Seq<StepView>,
    pub attachments: Seq<AttachmentView>,
    pub extra: Seq<(Seq<char>, JVal)>,
}

impl View for Test {
    type V = TestView;

    closed spec fn view(&self) -> TestView {
        TestView {
            name: self.name@,
            status: self.status,
            duration: self.duration,
            start: self.start,
            stop: self.stop,
            suite: view_opt_str(self.suite),
            message: view_opt_str(self.message),
            trace: view_opt_str(self.trace),
            line: self.line,
            ai: view_opt_str(self.ai),
            raw_status: view_opt_str(self.raw_status),
            tags: view_strs(self.tags@),
            test_type: view_opt_str(self.test_type),
            filepath: view_opt_str(self.filepath),
            retries: self.retries,
            flaky: self.flaky,
            stdout: view_strs(self.stdout@),
            stderr: view_strs(self.stderr@),
            thread_id: view_opt_str(self.thread_id),
            browser: view_opt_str(self.browser),
            device: view_opt_str(self.device),
            screenshot: view_opt_str(self.screenshot),
            parameters: self.parameters@,
            steps: self.steps@.map_values(|s: Step| s@),
            attachments: self.attachments@.map_values(|a: Attachment| a@),
            extra: self.extra@,
        }
    }
}

/// The structural invariant of a test model: every extension slot in the
/// tree (the test's own, its parameters, its steps', its attachments')
/// has unique keys.
pub open spec fn test_view_wf(t: TestView) -> bool {
    &&& unique_keys(t.extra)
    &&& unique_keys(t.parameters)
    &&& forall|i: int| 0 <= i < t.steps.len() ==> unique_keys(#[trigger] t.steps[i].extra)
    &&& forall|i: int| 0 <= i < t.attachments.len() ==> unique_keys(#[trigger] t.attachments[i].extra)
}

/// A test model with every optional field absent and every sequence empty.
pub open spec fn bare_test(name: Seq<char>, status: Status, duration: u64) -> TestView {
    TestView {
        name: name,
        status: status,
        duration: duration,
        start: None,
        stop: None,
        suite: None,
        message: None,
        trace: None,
        line: None,
        ai: None,
        raw_status: None,
        tags: Seq::empty(),
        test_type: None,
        filepath: None,
        retries: None,
        flaky: None,
        stdout: Seq::empty(),
        stderr: Seq::empty(),
        thread_id: None,
        browser: None,
        device: None,
        screenshot: None,
        parameters: Seq::empty(),
        steps: Seq::empty(),
        attachments: Seq::empty(),
        extra: Seq::empty(),
    }
}

impl Test {
    /// The structural invariant of the whole record.
    pub open spec fn wf(&self) -> bool {
        test_view_wf(self@)
    }

    /// Creates a test outcome from a duration measured in microseconds.
    ///
    /// The stored `duration` is whole milliseconds: the sub-millisecond
    /// remainder is truncated (floor division by 1000), so 999 µs becomes
    /// 0 ms and 1001 µs becomes 1 ms.
    pub fn new(name: String, status: Status, duration_micros: u64) -> (r: Test)
        ensures
            r@ == bare_test(name@, status, duration_micros / 1000),
            r.wf(),
    {
        let r = Test {
            name,
            status,
            duration: duration_micros / 1000,
            start: None,
            stop: None,
            suite: None,
            message: None,
            trace: None,
            line: None,
            ai: None,
            raw_status: None,
            tags: Vec::new(),
            test_type: None,
            filepath: None,
            retries: None,
            flaky: None,
            stdout: Vec::new(),
            stderr: Vec::new(),
            thread_id: None,
            browser: None,
            device: None,
            screenshot: None,
            parameters: Extras::new(),
            steps: Vec::new(),
            attachments: Vec::new(),
            extra: Extras::new(),
        };
        proof {
            assert(r@.tags =~= Seq::<Seq<char>>::empty());
            assert(r@.stdout =~= Seq::<Seq<char>>::empty());
            assert(r@.stderr =~= Seq::<Seq<char>>::empty());
            assert(r@.steps =~= Seq::<StepView>::empty());
            assert(r@.attachments =~= Seq::<AttachmentView>::empty());
        }
        r
    }

    /// The test's name.
    pub fn name(&self) -> (r: &String)
        ensures
            r@ == self@.name,
    {
        &self.name
    }

    /// The test's outcome.
    pub fn status(&self) -> (r: Status)
        ensures
            r == self@.status,
    {
        self.status
    }

    /// The test's duration in whole milliseconds.
    pub fn duration(&self) -> (r: u64)
        ensures
            r == self@.duration,
    {
        self.duration
    }

    /// The grouping suite the test declares, if any.
    pub fn suite(&self) -> (r: &Option<String>)
        ensures
            view_opt_str(*r) == self@.suite,
    {
        &self.suite
    }

    /// The extension slot's members, in insertion order.
    pub fn extra(&self) -> (r: &Extras)
        ensures
            r@ == self@.extra,
    {
        &self.extra
    }
}

impl Extra for Test {
    open spec fn extra_view(&self) -> Seq<(Seq<char>, JVal)> {
        self@.extra
    }

    open spec fn extra_wf(&self) -> bool {
        unique_keys(self@.extra)
    }

    fn insert_extra(&mut self, key: String, value: Json) -> (prev: Option<Json>)
        ensures
            final(self)@ == (TestView { extra: final(self)@.extra, ..old(self)@ }),
    {
        self.extra.insert(key, value)
    }

    fn remove_extra(&mut self, key: &str) -> (prev: Option<Json>)
        ensures
            final(self)@ == (TestView { extra: final(self)@.extra, ..old(self)@ }),
    {
        self.extra.remove(key)
    }
}


/// The wire tag of a status.
pub open spec fn status_tag(st: Status) -> Seq<char> {
    match st {
        Status::Pending => "pending"@,
        Status::Skipped => "skipped"@,
        Status::Failed => "failed"@,
        Status::Passed => "passed"@,
        Status::Other => "other"@,
    }
}

/// The status a wire tag names, if any.
pub open spec fn status_of_tag(s: Seq<char>) -> Option<Status> {
    if s == "pending"@ {
        Some(Status::Pending)
    } else if s == "skipped"@ {
        Some(Status::Skipped)
    } else if s == "failed"@ {
        Some(Status::Failed)
    } else if s == "passed"@ {
        Some(Status::Passed)
    } else if s == "other"@ {
        Some(Status::Other)
    } else {
        None
    }
}

/// Every status comes back from its own tag: the five tags are distinct.
pub proof fn lemma_status_tag_roundtrip(st: Status)
    ensures
        status_of_tag(status_tag(st)) == Some(st),
{
    reveal_strlit("pending");
    reveal_strlit("skipped");
    reveal_strlit("failed");
    reveal_strlit("passed");
    reveal_strlit("other");
    assert("skipped"@ != "pending"@) by {
        assert("skipped"@[0] != "pending"@[0]);
    }
    assert("passed"@ != "failed"@) by {
        assert("passed"@[0] != "failed"@[0]);
    }
    assert("failed"@ != "pending"@ && "failed"@ != "skipped"@) by {
        assert("failed"@.len() == 6 && "pending"@.len() == 7 && "skipped"@.len() == 7);
    }
    assert("passed"@ != "pending"@ && "passed"@ != "skipped"@) by {
        assert("passed"@.len() == 6);
    }
    assert("other"@ != "pending"@ && "other"@ != "skipped"@ && "other"@ != "failed"@ && "other"@
        != "passed"@) by {
        assert("other"@.len() == 5);
    }
    match st {
        Status::Pending => {
            assert(status_of_tag("pending"@) == Some(Status::Pending));
        },
        Status::Skipped => {
            assert(status_of_tag("skipped"@) == Some(Status::Skipped));
        },
        Status::Failed => {
            assert(status_of_tag("failed"@) == Some(Status::Failed));
        },
        Status::Passed => {
            assert(status_of_tag("passed"@) == Some(Status::Passed));
        },
        Status::Other => {
            assert(status_of_tag("other"@) == Some(Status::Other));
        },
    }
}

/// A required status member: the status its string tag names.
pub open spec fn dec_req_status(p: Seq<(Seq<char>, JVal)>, k: Seq<char>) -> Option<Status> {
    match obj_lookup(p, k) {
        Some(JVal::Str(s)) => status_of_tag(s),
        _ => None,
    }
}

impl Status {
    /// The wire tag of this status.
    pub fn tag(&self) -> (r: &'static str)
        ensures
            r@ == status_tag(*self),
    {
        match self {
            Status::Pending => "pending",
            Status::Skipped => "skipped",
            Status::Failed => "failed",
            Status::Passed => "passed",
            Status::Other => "other",
        }
    }

    /// The status a wire tag names, if any.
    pub fn from_tag(s: &str) -> (r: Option<Status>)
        ensures
            r == status_of_tag(s@),
    {
        if str_eq(s, "pending") {
            Some(Status::Pending)
        } else if str_eq(s, "skipped") {
            Some(Status::Skipped)
        } else if str_eq(s, "failed") {
            Some(Status::Failed)
        } else if str_eq(s, "passed") {
            Some(Status::Passed)
        } else if str_eq(s, "other") {
            Some(Status::Other)
        } else {
            None
        }
    }
}

/// Looks up a required status member.
pub fn get_status(pairs: &Vec<(String, Json)>, key: &str) -> (r: Option<Status>)
    ensures
        match r {
            Some(st) => dec_req_status(pairs_view(pairs@), key@) == Some(st),
            None => dec_req_status(pairs_view(pairs@), key@) is None,
        },
{
    match Json::lookup(pairs, key) {
        Some(Json::Str(s)) => Status::from_tag(s.as_str()),
        _ => None,
    }
}


/// A dummy step model, used only out of range in list comprehensions.
pub open spec fn dummy_step() -> StepView {
    StepView { name: Seq::empty(), status: Status::Other, extra: Seq::empty() }
}

/// A dummy attachment model, used only out of range.
pub open spec fn dummy_attachment() -> AttachmentView {
    AttachmentView {
        name: Seq::empty(),
        content_type: Seq::empty(),
        path: Seq::empty(),
        extra: Seq::empty(),
    }
}

/// Whether every element of an array decodes as a step.
pub open spec fn steps_ok(items: Seq<JVal>) -> bool {
    forall|i: int| 0 <= i < items.len() ==> step_from_json(#[trigger] items[i]) is Some
}

/// The steps an array of step objects decodes to.
pub open spec fn steps_vals(items: Seq<JVal>) -> Seq<StepView> {
    Seq::new(
        items.len(),
        |i: int|
            if 0 <= i < items.len() {
                match step_from_json(items[i]) {
                    Some(v) => v,
                    None => dummy_step(),
                }
            } else {
                dummy_step()
            },
    )
}

/// A step-list member: the empty list when absent.
pub open spec fn dec_steps(p: Seq<(Seq<char>, JVal)>, k: Seq<char>) -> Option<Seq<StepView>> {
    match obj_lookup(p, k) {
        None => Some(Seq::empty()),
        Some(JVal::Arr(items)) => if steps_ok(items) {
            Some(steps_vals(items))
        } else {
            None
        },
        _ => None,
    }
}

/// Whether every element of an array decodes as an attachment.
pub open spec fn attachments_ok(items: Seq<JVal>) -> bool {
    forall|i: int| 0 <= i < items.len() ==> attachment_from_json(#[trigger] items[i]) is Some
}

/// The attachments an array of attachment objects decodes to.
pub open spec fn attachments_vals(items: Seq<JVal>) -> Seq<AttachmentView> {
    Seq::new(
        items.len(),
        |i: int|
            if 0 <= i < items.len() {
                match attachment_from_json(items[i]) {
                    Some(v) => v,
                    None => dummy_attachment(),
                }
            } else {
                dummy_attachment()
            },
    )
}

/// An attachment-list member: the empty list when absent.
pub open spec fn dec_attachments(p: Seq<(Seq<char>, JVal)>, k: Seq<char>) -> Option<
    Seq<AttachmentView>,
> {
    match obj_lookup(p, k) {
        None => Some(Seq::empty()),
        Some(JVal::Arr(items)) => if attachments_ok(items) {
            Some(attachments_vals(items))
        } else {
            None
        },
        _ => None,
    }
}

/// A mapping-valued member: the empty mapping when absent; a present
/// object is folded with upsert semantics, so keys come out unique.
pub open spec fn dec_params(p: Seq<(Seq<char>, JVal)>, k: Seq<char>) -> Option<
    Seq<(Seq<char>, JVal)>,
> {
    match obj_lookup(p, k) {
        None => Some(Seq::empty()),
        Some(JVal::Obj(q)) => Some(extras_of(q, Set::empty())),
        _ => None,
    }
}

/// The typed wire keys of a test record.
pub open spec fn test_typed_keys() -> Set<Seq<char>> {
    Set::new(
        |s: Seq<char>|
            s == "name"@ || s == "status"@ || s == "duration"@ || s == "start"@ || s == "stop"@
                || s == "suite"@ || s == "message"@ || s == "trace"@ || s == "line"@ || s == "ai"@
                || s == "rawStatus"@ || s == "tags"@ || s == "type"@ || s == "filepath"@ || s
                == "retries"@ || s == "flaky"@ || s == "stdout"@ || s == "stderr"@ || s
                == "threadId"@ || s == "browser"@ || s == "device"@ || s == "screenshot"@ || s
                == "parameters"@ || s == "steps"@ || s == "attachments"@,
    )
}

/// The members of an encoded test record, in wire order: the three
/// required fields, then each optional field only when present, each
/// list or mapping only when non-empty, then the extension members.
pub open spec fn test_pairs(v: TestView) -> Seq<(Seq<char>, JVal)> {
    seq![
        ("name"@, JVal::Str(v.name)),
        ("status"@, JVal::Str(status_tag(v.status))),
        ("duration"@, JVal::Num(dec_rep(v.duration as nat))),
    ] + enc_opt_u64("start"@, v.start) + enc_opt_u64("stop"@, v.stop) + enc_opt_str(
        "suite"@,
        v.suite,
    ) + enc_opt_str("message"@, v.message) + enc_opt_str("trace"@, v.trace) + enc_opt_usize(
        "line"@,
        v.line,
    ) + enc_opt_str("ai"@, v.ai) + enc_opt_str("rawStatus"@, v.raw_status) + enc_strs(
        "tags"@,
        v.tags,
    ) + enc_opt_str("type"@, v.test_type) + enc_opt_str("filepath"@, v.filepath) + enc_opt_usize(
        "retries"@,
        v.retries,
    ) + enc_opt_bool("flaky"@, v.flaky) + enc_strs("stdout"@, v.stdout) + enc_strs(
        "stderr"@,
        v.stderr,
    ) + enc_opt_str("threadId"@, v.thread_id) + enc_opt_str("browser"@, v.browser) + enc_opt_str(
        "device"@,
        v.device,
    ) + enc_opt_str("screenshot"@, v.screenshot) + enc_obj("parameters"@, v.parameters) + enc_arr(
        "steps"@,
        v.steps.map_values(|sv: StepView| step_jval(sv)),
    ) + enc_arr("attachments"@, v.attachments.map_values(|av: AttachmentView| attachment_jval(av)))
        + v.extra
}

/// The encoded form of a test record.
pub open spec fn test_jval(v: TestView) -> JVal {
    JVal::Obj(test_pairs(v))
}

/// The test a document value decodes to, when every typed member has
/// the required shape.
pub open spec fn test_from_pairs(p: Seq<(Seq<char>, JVal)>) -> Option<TestView> {
    if dec_req_str(p, "name"@) is Some && dec_req_status(p, "status"@) is Some && dec_req_u64(
        p,
        "duration"@,
    ) is Some && dec_opt_u64(p, "start"@) is Some && dec_opt_u64(p, "stop"@) is Some && dec_opt_str(
        p,
        "suite"@,
    ) is Some && dec_opt_str(p, "message"@) is Some && dec_opt_str(p, "trace"@) is Some
        && dec_opt_usize(p, "line"@) is Some && dec_opt_str(p, "ai"@) is Some && dec_opt_str(
        p,
        "rawStatus"@,
    ) is Some && dec_strs(p, "tags"@) is Some && dec_opt_str(p, "type"@) is Some && dec_opt_str(
        p,
        "filepath"@,
    ) is Some && dec_opt_usize(p, "retries"@) is Some && dec_opt_bool(p, "flaky"@) is Some
        && dec_strs(p, "stdout"@) is Some && dec_strs(p, "stderr"@) is Some && dec_opt_str(
        p,
        "threadId"@,
    ) is Some && dec_opt_str(p, "browser"@) is Some && dec_opt_str(p, "device"@) is Some
        && dec_opt_str(p, "screenshot"@) is Some && dec_params(p, "parameters"@) is Some
        && dec_steps(p, "steps"@) is Some && dec_attachments(p, "attachments"@) is Some {
        Some(
            TestView {
                name: dec_req_str(p, "name"@)->Some_0,
                status: dec_req_status(p, "status"@)->Some_0,
                duration: dec_req_u64(p, "duration"@)->Some_0,
                start: dec_opt_u64(p, "start"@)->Some_0,
                stop: dec_opt_u64(p, "stop"@)->Some_0,
                suite: dec_opt_str(p, "suite"@)->Some_0,
                message: dec_opt_str(p, "message"@)->Some_0,
                trace: dec_opt_str(p, "trace"@)->Some_0,
                line: dec_opt_usize(p, "line"@)->Some_0,
                ai: dec_opt_str(p, "ai"@)->Some_0,
                raw_status: dec_opt_str(p, "rawStatus"@)->Some_0,
                tags: dec_strs(p, "tags"@)->Some_0,
                test_type: dec_opt_str(p, "type"@)->Some_0,
                filepath: dec_opt_str(p, "filepath"@)->Some_0,
                retries: dec_opt_usize(p, "retries"@)->Some_0,
                flaky: dec_opt_bool(p, "flaky"@)->Some_0,
                stdout: dec_strs(p, "stdout"@)->Some_0,
                stderr: dec_strs(p, "stderr"@)->Some_0,
                thread_id: dec_opt_str(p, "threadId"@)->Some_0,
                browser: dec_opt_str(p, "browser"@)->Some_0,
                device: dec_opt_str(p, "device"@)->Some_0,
                screenshot: dec_opt_str(p, "screenshot"@)->Some_0,
                parameters: dec_params(p, "parameters"@)->Some_0,
                steps: dec_steps(p, "steps"@)->Some_0,
                attachments: dec_attachments(p, "attachments"@)->Some_0,
                extra: extras_of(p, test_typed_keys()),
            },
        )
    } else {
        None
    }
}

/// The test a document value decodes to, when it is a well-shaped
/// object.
pub open spec fn test_from_json(v: JVal) -> Option<TestView> {
    match v {
        JVal::Obj(p) => test_from_pairs(p),
        _ => None,
    }
}


impl Test {
    /// Encodes the test as a document value: the typed fields in wire
    /// order, absent fields and empty collections omitted, extension
    /// members inlined after.
    #[verifier::rlimit(50)]
    pub fn to_json(&self) -> (r: Json)
        ensures
            r@ == test_jval(self@),
    {
        let mut out: Vec<(String, Json)> = Vec::new();
        out.push((String::from_str("name"), Json::Str(self.name.clone())));
        out.push((String::from_str("status"), Json::Str(String::from_str(self.status.tag()))));
        proof {
            assert(pairs_view(out@) =~= seq![
                ("name"@, JVal::Str(self@.name)),
                ("status"@, JVal::Str(status_tag(self@.status))),
            ]);
        }
        push_req_u64(&mut out, "duration", self.duration);
        proof {
            assert(seq![
                ("name"@, JVal::Str(self@.name)),
                ("status"@, JVal::Str(status_tag(self@.status))),
            ] + seq![("duration"@, JVal::Num(dec_rep(self@.duration as nat)))] =~= seq![
                ("name"@, JVal::Str(self@.name)),
                ("status"@, JVal::Str(status_tag(self@.status))),
                ("duration"@, JVal::Num(dec_rep(self@.duration as nat))),
            ]);
        }
        push_opt_u64(&mut out, "start", &self.start);
        push_opt_u64(&mut out, "stop", &self.stop);
        push_opt_str(&mut out, "suite", &self.suite);
        push_opt_str(&mut out, "message", &self.message);
        push_opt_str(&mut out, "trace", &self.trace);
        push_opt_usize(&mut out, "line", &self.line);
        push_opt_str(&mut out, "ai", &self.ai);
        push_opt_str(&mut out, "rawStatus", &self.raw_status);
        push_strs(&mut out, "tags", &self.tags);
        push_opt_str(&mut out, "type", &self.test_type);
        push_opt_str(&mut out, "filepath", &self.filepath);
        push_opt_usize(&mut out, "retries", &self.retries);
        push_opt_bool(&mut out, "flaky", &self.flaky);
        push_strs(&mut out, "stdout", &self.stdout);
        push_strs(&mut out, "stderr", &self.stderr);
        push_opt_str(&mut out, "threadId", &self.thread_id);
        push_opt_str(&mut out, "browser", &self.browser);
        push_opt_str(&mut out, "device", &self.device);
        push_opt_str(&mut out, "screenshot", &self.screenshot);
        if self.parameters.len() > 0 {
            let mut q: Vec<(String, Json)> = Vec::new();
            push_extras(&mut q, &self.parameters);
            let obj = Json::Obj(q);
            proof {
                crate::json::lemma_json_view(obj);
                assert(pairs_view(q@) =~= self@.parameters);
            }
            out.push((String::from_str("parameters"), obj));
            proof {
                assert(pairs_view(out@) =~= pairs_view(out@).take(out@.len() - 1) + enc_obj(
                    "parameters"@,
                    self@.parameters,
                ));
            }
        } else {
            proof {
                assert(enc_obj("parameters"@, self@.parameters)
                    =~= Seq::<(Seq<char>, JVal)>::empty());
                assert(pairs_view(out@) =~= pairs_view(out@) + enc_obj(
                    "parameters"@,
                    self@.parameters,
                ));
            }
        }
        if self.steps.len() > 0 {
            let mut items: Vec<Json> = Vec::new();
            let mut i: usize = 0;
            while i < self.steps.len()
                invariant
                    0 <= i <= self.steps.len(),
                    items@.len() == i,
                    forall|j: int| 0 <= j < i ==> items@[j]@ == step_jval(self.steps@[j]@),
                decreases self.steps.len() - i,
            {
                items.push(self.steps[i].to_json());
                i += 1;
            }
            let arr = Json::Arr(items);
            proof {
                crate::json::lemma_json_view(arr);
                assert(crate::json::jvals_view(items@) =~= self@.steps.map_values(
                    |sv: StepView| step_jval(sv),
                ));
            }
            out.push((String::from_str("steps"), arr));
        } else {
            proof {
                assert(self@.steps.map_values(|sv: StepView| step_jval(sv)).len() == 0);
            }
        }
        if self.attachments.len() > 0 {
            let mut items: Vec<Json> = Vec::new();
            let mut i: usize = 0;
            while i < self.attachments.len()
                invariant
                    0 <= i <= self.attachments.len(),
                    items@.len() == i,
                    forall|j: int|
                        0 <= j < i ==> items@[j]@ == attachment_jval(self.attachments@[j]@),
                decreases self.attachments.len() - i,
            {
                items.push(self.attachments[i].to_json());
                i += 1;
            }
            let arr = Json::Arr(items);
            proof {
                crate::json::lemma_json_view(arr);
                assert(crate::json::jvals_view(items@) =~= self@.attachments.map_values(
                    |av: AttachmentView| attachment_jval(av),
                ));
            }
            out.push((String::from_str("attachments"), arr));
        } else {
            proof {
                assert(self@.attachments.map_values(|av: AttachmentView| attachment_jval(av)).len()
                    == 0);
            }
        }
        push_extras(&mut out, &self.extra);
        let r = Json::Obj(out);
        proof {
            crate::json::lemma_json_view(r);
            assert(pairs_view(out@) =~= test_pairs(self@));
        }
        r
    }

    /// Decodes a test from a document value: the exact inverse of the
    /// shape [`test_from_json`] describes, every unknown sibling key
    /// routed into the extension slot.
    #[verifier::rlimit(100)]
    #[verifier::spinoff_prover]
    pub fn from_json(j: &Json) -> (r: Result<Test, DecodeError>)
        ensures
            match r {
                Ok(v) => test_from_json(j@) == Some(v@) && v.wf(),
                Err(_) => test_from_json(j@) is None,
            },
    {
        let pairs = match j {
            Json::Obj(p) => p,
            _ => {
                return Err(DecodeError::Field(String::from_str("test")));
            },
        };
        let ghost pv = pairs_view(pairs@);
        proof {
            crate::json::lemma_json_view(*j);
        }
        let name = match get_req_str(pairs, "name") {
            Some(s) => s,
            None => {
                return Err(DecodeError::Field(String::from_str("name")));
            },
        };
        let status = match get_status(pairs, "status") {
            Some(st) => st,
            None => {
                return Err(DecodeError::Field(String::from_str("status")));
            },
        };
        let duration = match crate::codec::get_req_u64(pairs, "duration") {
            Some(v) => v,
            None => {
                return Err(DecodeError::Field(String::from_str("duration")));
            },
        };
        let start = match get_opt_u64(pairs, "start") {
            Ok(v) => v,
            Err(_) => {
                return Err(DecodeError::Field(String::from_str("start")));
            },
        };
        let stop = match get_opt_u64(pairs, "stop") {
            Ok(v) => v,
            Err(_) => {
                return Err(DecodeError::Field(String::from_str("stop")));
            },
        };
        let suite = match get_opt_str(pairs, "suite") {
            Ok(v) => v,
            Err(_) => {
                return Err(DecodeError::Field(String::from_str("suite")));
            },
        };
        let message = match get_opt_str(pairs, "message") {
            Ok(v) => v,
            Err(_) => {
                return Err(DecodeError::Field(String::from_str("message")));
            },
        };
        let trace = match get_opt_str(pairs, "trace") {
            Ok(v) => v,
            Err(_) => {
                return Err(DecodeError::Field(String::from_str("trace")));
            },
        };
        let line = match get_opt_usize(pairs, "line") {
            Ok(v) => v,
            Err(_) => {
                return Err(DecodeError::Field(String::from_str("line")));
            },
        };
        let ai = match get_opt_str(pairs, "ai") {
            Ok(v) => v,
            Err(_) => {
                return Err(DecodeError::Field(String::from_str("ai")));
            },
        };
        let raw_status = match get_opt_str(pairs, "rawStatus") {
            Ok(v) => v,
            Err(_) => {
                return Err(DecodeError::Field(String::from_str("rawStatus")));
            },
        };
        let tags = match get_strs(pairs, "tags") {
            Ok(v) => v,
            Err(_) => {
                return Err(DecodeError::Field(String::from_str("tags")));
            },
        };
        let test_type = match get_opt_str(pairs, "type") {
            Ok(v) => v,
            Err(_) => {
                return Err(DecodeError::Field(String::from_str("type")));
            },
        };
        let filepath = match get_opt_str(pairs, "filepath") {
            Ok(v) => v,
            Err(_) => {
                return Err(DecodeError::Field(String::from_str("filepath")));
            },
        };
        let retries = match get_opt_usize(pairs, "retries") {
            Ok(v) => v,
            Err(_) => {
                return Err(DecodeError::Field(String::from_str("retries")));
            },
        };
        let flaky = match get_opt_bool(pairs, "flaky") {
            Ok(v) => v,
            Err(_) => {
                return Err(DecodeError::Field(String::from_str("flaky")));
            },
        };
        let stdout = match get_strs(pairs, "stdout") {
            Ok(v) => v,
            Err(_) => {
                return Err(DecodeError::Field(String::from_str("stdout")));
            },
        };
        let stderr = match get_strs(pairs, "stderr") {
            Ok(v) => v,
            Err(_) => {
                return Err(DecodeError::Field(String::from_str("stderr")));
            },
        };
        let thread_id = match get_opt_str(pairs, "threadId") {
            Ok(v) => v,
            Err(_) => {
                return Err(DecodeError::Field(String::from_str("threadId")));
            },
        };
        let browser = match get_opt_str(pairs, "browser") {
            Ok(v) => v,
            Err(_) => {
                return Err(DecodeError::Field(String::from_str("browser")));
            },
        };
        let device = match get_opt_str(pairs, "device") {
            Ok(v) => v,
            Err(_) => {
                return Err(DecodeError::Field(String::from_str("device")));
            },
        };
        let screenshot = match get_opt_str(pairs, "screenshot") {
            Ok(v) => v,
            Err(_) => {
                return Err(DecodeError::Field(String::from_str("screenshot")));
            },
        };
        let parameters = match get_params(pairs, "parameters") {
            Ok(v) => v,
            Err(_) => {
                return Err(DecodeError::Field(String::from_str("parameters")));
            },
        };
        let steps = match get_steps(pairs, "steps") {
            Ok(v) => v,
            Err(e) => {
                return Err(e);
            },
        };
        let attachments = match get_attachments(pairs, "attachments") {
            Ok(v) => v,
            Err(e) => {
                return Err(e);
            },
        };
        let mut typed: Vec<&str> = Vec::new();
        typed.push("name");
        typed.push("status");
        typed.push("duration");
        typed.push("start");
        typed.push("stop");
        typed.push("suite");
        typed.push("message");
        typed.push("trace");
        typed.push("line");
        typed.push("ai");
        typed.push("rawStatus");
        typed.push("tags");
        typed.push("type");
        typed.push("filepath");
        typed.push("retries");
        typed.push("flaky");
        typed.push("stdout");
        typed.push("stderr");
        typed.push("threadId");
        typed.push("browser");
        typed.push("device");
        typed.push("screenshot");
        typed.push("parameters");
        typed.push("steps");
        typed.push("attachments");
        proof {
            lemma_test_typed_vec(typed@);
        }
        let extra = collect_extras(pairs, typed.as_slice());
        let v = Test {
            name,
            status,
            duration,
            start,
            stop,
            suite,
            message,
            trace,
            line,
            ai,
            raw_status,
            tags,
            test_type,
            filepath,
            retries,
            flaky,
            stdout,
            stderr,
            thread_id,
            browser,
            device,
            screenshot,
            parameters,
            steps,
            attachments,
            extra,
        };
        proof {
            assert(test_from_json(j@) == Some(v@)) by {
                assert(test_from_pairs(pv) matches Some(w) && w =~= v@);
            }
        }
        Ok(v)
    }
}

/// Looks up a mapping-valued member; absent means an empty mapping.
fn get_params(pairs: &Vec<(String, Json)>, key: &str) -> (r: Result<Extras, DecodeError>)
    ensures
        match r {
            Ok(v) => dec_params(pairs_view(pairs@), key@) == Some(v@) && v.wf(),
            Err(_) => dec_params(pairs_view(pairs@), key@) is None,
        },
{
    match Json::lookup(pairs, key) {
        None => Ok(Extras::new()),
        Some(Json::Obj(q)) => {
            proof {
                crate::json::lemma_jpairs_of(q@);
                let qv = crate::json::jpairs_of(q@);
                assert(qv =~= pairs_view(q@));
            }
            let typed: Vec<&str> = Vec::new();
            proof {
                assert forall|s: Seq<char>|
                    !(strs_set(typed@).contains(s) != Set::<Seq<char>>::empty().contains(s)) by {
                    if strs_set(typed@).contains(s) {
                        let i = choose|i: int| 0 <= i < typed@.len() && typed@[i]@ == s;
                    }
                }
                assert(strs_set(typed@) =~= Set::<Seq<char>>::empty());
            }
            Ok(collect_extras(q, typed.as_slice()))
        },
        Some(other) => {
            proof {
                assert(!(other@ is Obj));
            }
            Err(DecodeError::Field(key.to_owned()))
        },
    }
}

/// Looks up a step-list member; absent means empty. A mistyped element
/// fails the decode.
#[verifier::loop_isolation(false)]
fn get_steps(pairs: &Vec<(String, Json)>, key: &str) -> (r: Result<Vec<Step>, DecodeError>)
    ensures
        match r {
            Ok(v) => dec_steps(pairs_view(pairs@), key@) == Some(v@.map_values(|s: Step| s@))
                && forall|i: int| 0 <= i < v@.len() ==> (#[trigger] v@[i]).wf(),
            Err(_) => dec_steps(pairs_view(pairs@), key@) is None,
        },
{
    match Json::lookup(pairs, key) {
        None => {
            let out: Vec<Step> = Vec::new();
            proof {
                assert(out@.map_values(|s: Step| s@) =~= Seq::<StepView>::empty());
            }
            Ok(out)
        },
        Some(Json::Arr(items)) => {
            proof {
                crate::json::lemma_jvals_of(items@);
            }
            let ghost iv = crate::json::jvals_of(items@);
            let mut out: Vec<Step> = Vec::new();
            let mut i: usize = 0;
            while i < items.len()
                invariant
                    0 <= i <= items.len(),
                    out@.len() == i,
                    forall|j: int|
                        0 <= j < i ==> step_from_json(#[trigger] iv[j]) == Some(out@[j]@),
                    forall|j: int| 0 <= j < i ==> (#[trigger] out@[j]).wf(),
                decreases items.len() - i,
            {
                match Step::from_json(&items[i]) {
                    Ok(st) => out.push(st),
                    Err(e) => {
                        proof {
                            assert(iv[i as int] == items@[i as int]@);
                            assert(!steps_ok(iv));
                        }
                        return Err(e);
                    },
                }
                i += 1;
            }
            proof {
                assert(steps_ok(iv));
                assert(out@.map_values(|s: Step| s@) =~= steps_vals(iv));
            }
            Ok(out)
        },
        Some(other) => {
            proof {
                assert(!(other@ is Arr));
            }
            Err(DecodeError::Field(key.to_owned()))
        },
    }
}

/// Looks up an attachment-list member; absent means empty. A mistyped
/// element fails the decode.
#[verifier::loop_isolation(false)]
fn get_attachments(pairs: &Vec<(String, Json)>, key: &str) -> (r: Result<
    Vec<Attachment>,
    DecodeError,
>)
    ensures
        match r {
            Ok(v) => dec_attachments(pairs_view(pairs@), key@) == Some(
                v@.map_values(|a: Attachment| a@),
            ) && forall|i: int| 0 <= i < v@.len() ==> (#[trigger] v@[i]).wf(),
            Err(_) => dec_attachments(pairs_view(pairs@), key@) is None,
        },
{
    match Json::lookup(pairs, key) {
        None => {
            let out: Vec<Attachment> = Vec::new();
            proof {
                assert(out@.map_values(|a: Attachment| a@) =~= Seq::<AttachmentView>::empty());
            }
            Ok(out)
        },
        Some(Json::Arr(items)) => {
            proof {
                crate::json::lemma_jvals_of(items@);
            }
            let ghost iv = crate::json::jvals_of(items@);
            let mut out: Vec<Attachment> = Vec::new();
            let mut i: usize = 0;
            while i < items.len()
                invariant
                    0 <= i <= items.len(),
                    out@.len() == i,
                    forall|j: int|
                        0 <= j < i ==> attachment_from_json(#[trigger] iv[j]) == Some(out@[j]@),
                    forall|j: int| 0 <= j < i ==> (#[trigger] out@[j]).wf(),
                decreases items.len() - i,
            {
                match Attachment::from_json(&items[i]) {
                    Ok(a) => out.push(a),
                    Err(e) => {
                        proof {
                            assert(iv[i as int] == items@[i as int]@);
                            assert(!attachments_ok(iv));
                        }
                        return Err(e);
                    },
                }
                i += 1;
            }
            proof {
                assert(attachments_ok(iv));
                assert(out@.map_values(|a: Attachment| a@) =~= attachments_vals(iv));
            }
            Ok(out)
        },
        Some(other) => {
            proof {
                assert(!(other@ is Arr));
            }
            Err(DecodeError::Field(key.to_owned()))
        },
    }
}


/// The key list built by the test decoder names exactly the typed keys.
#[verifier::rlimit(100)]
proof fn lemma_test_typed_vec(typed: Seq<&str>)
    requires
        typed.len() == 25,
        typed[0]@ == "name"@,
        typed[1]@ == "status"@,
        typed[2]@ == "duration"@,
        typed[3]@ == "start"@,
        typed[4]@ == "stop"@,
        typed[5]@ == "suite"@,
        typed[6]@ == "message"@,
        typed[7]@ == "trace"@,
        typed[8]@ == "line"@,
        typed[9]@ == "ai"@,
        typed[10]@ == "rawStatus"@,
        typed[11]@ == "tags"@,
        typed[12]@ == "type"@,
        typed[13]@ == "filepath"@,
        typed[14]@ == "retries"@,
        typed[15]@ == "flaky"@,
        typed[16]@ == "stdout"@,
        typed[17]@ == "stderr"@,
        typed[18]@ == "threadId"@,
        typed[19]@ == "browser"@,
        typed[20]@ == "device"@,
        typed[21]@ == "screenshot"@,
        typed[22]@ == "parameters"@,
        typed[23]@ == "steps"@,
        typed[24]@ == "attachments"@,
    ensures
        strs_set(typed) == test_typed_keys(),
{
    assert forall|s: Seq<char>| strs_set(typed).contains(s) implies test_typed_keys().contains(
        s,
    ) by {
        let i = choose|i: int| 0 <= i < typed.len() && typed[i]@ == s;
    }
    assert forall|s: Seq<char>| test_typed_keys().contains(s) implies strs_set(typed).contains(
        s,
    ) by {
        if s == "name"@ {
            assert(typed[0]@ == s);
        } else if s == "status"@ {
            assert(typed[1]@ == s);
        } else if s == "duration"@ {
            assert(typed[2]@ == s);
        } else if s == "start"@ {
            assert(typed[3]@ == s);
        } else if s == "stop"@ {
            assert(typed[4]@ == s);
        } else if s == "suite"@ {
            assert(typed[5]@ == s);
        } else if s == "message"@ {
            assert(typed[6]@ == s);
        } else if s == "trace"@ {
            assert(typed[7]@ == s);
        } else if s == "line"@ {
            assert(typed[8]@ == s);
        } else if s == "ai"@ {
            assert(typed[9]@ == s);
        } else if s == "rawStatus"@ {
            assert(typed[10]@ == s);
        } else if s == "tags"@ {
            assert(typed[11]@ == s);
        } else if s == "type"@ {
            assert(typed[12]@ == s);
        } else if s == "filepath"@ {
            assert(typed[13]@ == s);
        } else if s == "retries"@ {
            assert(typed[14]@ == s);
        } else if s == "flaky"@ {
            assert(typed[15]@ == s);
        } else if s == "stdout"@ {
            assert(typed[16]@ == s);
        } else if s == "stderr"@ {
            assert(typed[17]@ == s);
        } else if s == "threadId"@ {
            assert(typed[18]@ == s);
        } else if s == "browser"@ {
            assert(typed[19]@ == s);
        } else if s == "device"@ {
            assert(typed[20]@ == s);
        } else if s == "screenshot"@ {
            assert(typed[21]@ == s);
        } else if s == "parameters"@ {
            assert(typed[22]@ == s);
        } else if s == "steps"@ {
            assert(typed[23]@ == s);
        } else {
            assert(typed[24]@ == s);
        }
    }
    assert(strs_set(typed) =~= test_typed_keys());
}


/// Optional-field omission law: a test whose optional fields are all
/// absent, whose collections are all empty and whose extension slot is
/// empty encodes to a record holding exactly `name`, `status` and
/// `duration` — no key for any absent field appears.
pub proof fn lemma_minimal_test_encoding(name: Seq<char>, status: Status, duration: u64)
    ensures
        test_pairs(bare_test(name, status, duration)) == seq![
            ("name"@, JVal::Str(name)),
            ("status"@, JVal::Str(status_tag(status))),
            ("duration"@, JVal::Num(dec_rep(duration as nat))),
        ],
{
    let t = bare_test(name, status, duration);
    assert(t.steps.map_values(|sv: StepView| step_jval(sv)).len() == 0);
    assert(t.attachments.map_values(|av: AttachmentView| attachment_jval(av)).len() == 0);
    assert(test_pairs(t) =~= seq![
        ("name"@, JVal::Str(name)),
        ("status"@, JVal::Str(status_tag(status))),
        ("duration"@, JVal::Num(dec_rep(duration as nat))),
    ]);
}

} // verus!
