//! The run payload and its builder: the one place where data is computed
//! rather than carried. The builder accumulates an ordered sequence of
//! tests for one tool and, on build, derives the summary from them.

use vstd::prelude::*;
use vstd::seq_lib::*;
use crate::codec::{collect_extras, extras_of, push_extras, strs_set, DecodeError};
use crate::environment::{environment_from_json, environment_jval, Environment, EnvironmentView};
use crate::extra::{unique_keys, Extra, Extras};
use crate::json::{obj_lookup, pairs_view, JVal, Json, view_strs};
use crate::summary::{summary_from_json, summary_jval, totals_ok, Summary, SummaryView};
use crate::test::{bare_test, test_from_json, test_jval, Status, Test, TestView};
use crate::tool::{tool_from_json, tool_jval, Tool, ToolView};

verus! {

/// How many of `tests` have exactly status `st`.
pub open spec fn count_status(tests: Seq<TestView>, st: Status) -> nat
    decreases tests.len(),
{
    if tests.len() == 0 {
        0
    } else {
        count_status(tests.drop_last(), st) + if tests.last().status == st {
            1nat
        } else {
            0nat
        }
    }
}

/// The set of distinct suite labels the tests declare; an absent `suite`
/// contributes no member.
pub open spec fn suite_set(tests: Seq<TestView>) -> Set<Seq<char>>
    decreases tests.len(),
{
    if tests.len() == 0 {
        Set::empty()
    } else {
        match tests.last().suite {
            Some(s) => suite_set(tests.drop_last()).insert(s),
            None => suite_set(tests.drop_last()),
        }
    }
}

/// The run payload: one tool, the derived summary, the tests in run
/// order, optional environment, extension slot.
pub struct Results {
    tool: Tool,
    summary: Summary,
    tests: Vec<Test>,
    environment: Option<Environment>,
    extra: Extras,
}

/// The model of a [`Results`].
#[verifier::ext_equal]
pub struct ResultsView {
    pub tool: ToolView,
    pub summary: SummaryView,
    pub tests: Seq<TestView>,
    pub environment: Option<EnvironmentView>,
    pub extra: Seq<(Seq<char>, JVal)>,
}

impl View for Results {
    type V = ResultsView;

    closed spec fn view(&self) -> ResultsView {
        ResultsView {
            tool: self.tool@,
            summary: self.summary@,
            tests: self.tests@.map_values(|t: Test| t@),
            environment: match self.environment {
                Some(ref e) => Some(e@),
                None => None,
            },
            extra: self.extra@,
        }
    }
}

impl Results {
    /// The run's tool.
    pub fn tool(&self) -> (r: &Tool)
        ensures
            r@ == self@.tool,
    {
        &self.tool
    }

    /// The derived summary.
    pub fn summary(&self) -> (r: &Summary)
        ensures
            r@ == self@.summary,
    {
        &self.summary
    }

    /// The tests, in the order they were appended.
    pub fn tests(&self) -> (r: &Vec<Test>)
        ensures
            r@.map_values(|t: Test| t@) == self@.tests,
    {
        &self.tests
    }

    /// The optional environment.
    pub fn environment(&self) -> (r: &Option<Environment>)
        ensures
            match r {
                Some(e) => self@.environment == Some(e@),
                None => self@.environment is None,
            },
    {
        &self.environment
    }

    /// The extension slot's members, in insertion order.
    pub fn extra(&self) -> (r: &Extras)
        ensures
            r@ == self@.extra,
    {
        &self.extra
    }
}

impl Extra for Results {
    open spec fn extra_view(&self) -> Seq<(Seq<char>, JVal)> {
        self@.extra
    }

    open spec fn extra_wf(&self) -> bool {
        unique_keys(self@.extra)
    }

    fn insert_extra(&mut self, key: String, value: Json) -> (prev: Option<Json>)
        ensures
            final(self)@ == (ResultsView { extra: final(self)@.extra, ..old(self)@ }),
    {
        self.extra.insert(key, value)
    }

    fn remove_extra(&mut self, key: &str) -> (prev: Option<Json>)
        ensures
            final(self)@ == (ResultsView { extra: final(self)@.extra, ..old(self)@ }),
    {
        self.extra.remove(key)
    }
}

/// Staged construction of a [`Results`]: accumulates tests for one tool,
/// then derives the summary on [`ResultsBuilder::build`].
pub struct ResultsBuilder {
    tool: Tool,
    tests: Vec<Test>,
    environment: Option<Environment>,
    extra: Extras,
}

/// The model of a [`ResultsBuilder`].
#[verifier::ext_equal]
pub struct ResultsBuilderView {
    pub tool: ToolView,
    pub tests: Seq<TestView>,
    pub environment: Option<EnvironmentView>,
    pub extra: Seq<(Seq<char>, JVal)>,
}

impl View for ResultsBuilder {
    type V = ResultsBuilderView;

    closed spec fn view(&self) -> ResultsBuilderView {
        ResultsBuilderView {
            tool: self.tool@,
            tests: self.tests@.map_values(|t: Test| t@),
            environment: match self.environment {
                Some(ref e) => Some(e@),
                None => None,
            },
            extra: self.extra@,
        }
    }
}

impl ResultsBuilder {
    /// Starts a builder with an empty test sequence, no environment, and
    /// an empty extension slot.
    pub fn new(tool: Tool) -> (r: ResultsBuilder)
        ensures
            r@.tool == tool@,
            r@.tests == Seq::<TestView>::empty(),
            r@.environment is None,
            r@.extra == Seq::<(Seq<char>, JVal)>::empty(),
    {
        let r = ResultsBuilder { tool, tests: Vec::new(), environment: None, extra: Extras::new() };
        proof {
            assert(r@.tests =~= Seq::<TestView>::empty());
            assert(r@.extra =~= Seq::<(Seq<char>, JVal)>::empty());
        }
        r
    }

    /// Appends a Test to the contained list; the order is preserved and
    /// later reflected verbatim in the built results.
    pub fn add_test(&mut self, test: Test)
        ensures
            final(self)@ == (ResultsBuilderView {
                tests: old(self)@.tests.push(test@),
                ..old(self)@
            }),
    {
        self.tests.push(test);
        proof {
            assert(self@.tests =~= old(self)@.tests.push(test@));
        }
    }

    /// Sets the Environment, which can be absent.
    pub fn environment(&mut self, environment: Option<Environment>)
        ensures
            final(self)@ == (ResultsBuilderView {
                environment: match environment {
                    Some(ref e) => Some(e@),
                    None => None,
                },
                ..old(self)@
            }),
    {
        self.environment = environment;
    }

    /// Builds and returns the final Results instance.
    ///
    /// The summary counters are the exact per-status counts of the
    /// accumulated tests, the total is their sum (equal to the number of
    /// tests appended), and the suite count is the number of distinct
    /// declared suites, absent when no test declares one. The window is
    /// recorded as given: an inverted window is not rejected.
    pub fn build(self, start: u64, stop: u64) -> (r: Results)
        ensures
            r@.tool == self@.tool,
            r@.tests == self@.tests,
            r@.environment == self@.environment,
            r@.extra == self@.extra,
            r@.summary.passed == count_status(self@.tests, Status::Passed),
            r@.summary.failed == count_status(self@.tests, Status::Failed),
            r@.summary.pending == count_status(self@.tests, Status::Pending),
            r@.summary.skipped == count_status(self@.tests, Status::Skipped),
            r@.summary.other == count_status(self@.tests, Status::Other),
            r@.summary.tests == self@.tests.len(),
            totals_ok(r@.summary),
            r@.summary.suites == if suite_set(self@.tests).len() == 0 {
                None::<usize>
            } else {
                Some(suite_set(self@.tests).len() as usize)
            },
            r@.summary.start == start,
            r@.summary.stop == stop,
            r@.summary.extra == Seq::<(Seq<char>, JVal)>::empty(),
    {
        let ResultsBuilder { tool, tests, environment, extra } = self;
        let ghost tv = tests@.map_values(|t: Test| t@);

        let mut passed: usize = 0;
        let mut failed: usize = 0;
        let mut pending: usize = 0;
        let mut skipped: usize = 0;
        let mut other: usize = 0;
        let mut i: usize = 0;
        while i < tests.len()
            invariant
                0 <= i <= tests.len(),
                tv == tests@.map_values(|t: Test| t@),
                passed == count_status(tv.take(i as int), Status::Passed),
                failed == count_status(tv.take(i as int), Status::Failed),
                pending == count_status(tv.take(i as int), Status::Pending),
                skipped == count_status(tv.take(i as int), Status::Skipped),
                other == count_status(tv.take(i as int), Status::Other),
                passed + failed + pending + skipped + other == i,
            decreases tests.len() - i,
        {
            proof {
                assert(tv.take(i + 1).drop_last() =~= tv.take(i as int));
                assert(tv.take(i + 1).last() == tv[i as int]);
                assert(tv[i as int] == tests@[i as int]@);
            }
            match tests[i].status() {
                Status::Passed => passed = passed + 1,
                Status::Failed => failed = failed + 1,
                Status::Pending => pending = pending + 1,
                Status::Skipped => skipped = skipped + 1,
                Status::Other => other = other + 1,
            }
            i += 1;
        }
        proof {
            assert(tv.take(tests.len() as int) =~= tv);
        }

        let mut summary = Summary::new(start, stop);
        summary.passed(passed);
        summary.failed(failed);
        summary.pending(pending);
        summary.skipped(skipped);
        summary.other(other);

        let mut seen: Vec<String> = Vec::new();
        let mut j: usize = 0;
        proof {
            assert(view_strs(seen@).to_set() =~= suite_set(tv.take(0)));
            assert(view_strs(seen@).no_duplicates());
        }
        while j < tests.len()
            invariant
                0 <= j <= tests.len(),
                tv == tests@.map_values(|t: Test| t@),
                view_strs(seen@).no_duplicates(),
                view_strs(seen@).to_set() == suite_set(tv.take(j as int)),
            decreases tests.len() - j,
        {
            proof {
                assert(tv.take(j + 1).drop_last() =~= tv.take(j as int));
                assert(tv.take(j + 1).last() == tv[j as int]);
                assert(tv[j as int] == tests@[j as int]@);
            }
            match tests[j].suite() {
                Some(s) => {
                    let present = contains_str(&seen, s.as_str());
                    if !present {
                        let ghost seen0 = view_strs(seen@);
                        seen.push(s.clone());
                        proof {
                            let sv = s@;
                            assert(!seen0.contains(sv));
                            assert(view_strs(seen@) =~= seen0.push(sv));
                            assert forall|a: int, b: int|
                                0 <= a < seen0.push(sv).len() && 0 <= b < seen0.push(sv).len() && a
                                    != b implies seen0.push(sv)[a] != seen0.push(sv)[b] by {
                                if a == seen0.len() as int {
                                    if seen0.push(sv)[b] == sv {
                                        assert(seen0[b] == sv);
                                        assert(seen0.contains(sv));
                                    }
                                } else if b == seen0.len() as int {
                                    if seen0.push(sv)[a] == sv {
                                        assert(seen0[a] == sv);
                                        assert(seen0.contains(sv));
                                    }
                                }
                            }
                            let pushed = seen0.push(sv);
                            assert forall|a: Seq<char>| pushed.contains(a) implies seen0.to_set()
                                .insert(sv).contains(a) by {
                                let k = choose|k: int| 0 <= k < pushed.len() && pushed[k] == a;
                                if k < seen0.len() {
                                    assert(seen0[k] == a);
                                    assert(seen0.contains(a));
                                }
                            }
                            assert forall|a: Seq<char>|
                                seen0.to_set().insert(sv).contains(a) implies pushed.contains(
                                a,
                            ) by {
                                if a == sv {
                                    assert(pushed[seen0.len() as int] == a);
                                } else {
                                    let k = choose|k: int| 0 <= k < seen0.len() && seen0[k] == a;
                                    assert(pushed[k] == a);
                                }
                            }
                            assert(view_strs(seen@).to_set() =~= seen0.to_set().insert(sv));
                        }
                    } else {
                        proof {
                            assert(view_strs(seen@).to_set().insert(s@) =~= view_strs(
                                seen@,
                            ).to_set());
                        }
                    }
                },
                None => {},
            }
            j += 1;
        }
        proof {
            assert(tv.take(tests.len() as int) =~= tv);
            view_strs(seen@).unique_seq_to_set();
        }
        let suite_count = seen.len();
        if suite_count > 0 {
            summary.suites(Some(suite_count));
        }

        let r = Results { tool, summary, tests, environment, extra };
        proof {
            assert(r@.tests =~= tv);
        }
        r
    }
}

/// Whether a string sequence holds `s` by contents.
fn contains_str(v: &Vec<String>, s: &str) -> (r: bool)
    ensures
        r == view_strs(v@).contains(s@),
{
    let mut i: usize = 0;
    while i < v.len()
        invariant
            0 <= i <= v.len(),
            forall|k: int| 0 <= k < i ==> v@[k]@ != s@,
        decreases v.len() - i,
    {
        if crate::json::str_eq(v[i].as_str(), s) {
            proof {
                assert(view_strs(v@)[i as int] == s@);
            }
            return true;
        }
        i += 1;
    }
    proof {
        if view_strs(v@).contains(s@) {
            let k = choose|k: int| 0 <= k < view_strs(v@).len() && view_strs(v@)[k] == s@;
            assert(v@[k]@ == s@);
        }
    }
    false
}

/// Partition law: over any test sequence, the five per-status counts sum
/// to the sequence's length, because each test has exactly one status.
pub proof fn lemma_status_partition(tests: Seq<TestView>)
    ensures
        count_status(tests, Status::Passed) + count_status(tests, Status::Failed) + count_status(
            tests,
            Status::Pending,
        ) + count_status(tests, Status::Skipped) + count_status(tests, Status::Other)
            == tests.len(),
    decreases tests.len(),
{
    if tests.len() > 0 {
        lemma_status_partition(tests.drop_last());
    }
}

/// Suite-derivation law: the suite set is empty exactly when no test
/// declares a suite, and a label is in it exactly when some test declares
/// it, so duplicates collapse.
pub proof fn lemma_suite_set_members(tests: Seq<TestView>)
    ensures
        forall|s: Seq<char>|
            suite_set(tests).contains(s) <==> exists|i: int|
                0 <= i < tests.len() && tests[i].suite == Some(s),
        suite_set(tests).len() == 0 <==> (forall|i: int|
            0 <= i < tests.len() ==> tests[i].suite is None),
        suite_set(tests).finite(),
    decreases tests.len(),
{
    if tests.len() == 0 {
        assert(suite_set(tests) =~= Set::<Seq<char>>::empty());
    } else {
        lemma_suite_set_members(tests.drop_last());
        let head = tests.drop_last();
        assert forall|s: Seq<char>| suite_set(tests).contains(s) implies exists|i: int|
            0 <= i < tests.len() && tests[i].suite == Some(s) by {
            if head.len() > 0 && suite_set(head).contains(s) {
                let i = choose|i: int| 0 <= i < head.len() && head[i].suite == Some(s);
                assert(tests[i].suite == Some(s));
            } else {
                assert(tests[tests.len() - 1].suite == Some(s));
            }
        }
        assert forall|s: Seq<char>|
            exists|i: int| 0 <= i < tests.len() && tests[i].suite == Some(s) implies suite_set(
            tests,
        ).contains(s) by {
            let i = choose|i: int| 0 <= i < tests.len() && tests[i].suite == Some(s);
            if i < tests.len() - 1 {
                assert(head[i].suite == Some(s));
            }
        }
        if suite_set(tests).len() == 0 {
            assert forall|i: int| 0 <= i < tests.len() implies tests[i].suite is None by {
                match tests[i].suite {
                    Some(s) => {
                        assert(suite_set(tests).contains(s));
                        assert(false);
                    },
                    None => {},
                }
            }
        }
        if forall|i: int| 0 <= i < tests.len() ==> tests[i].suite is None {
            assert(suite_set(tests) =~= Set::<Seq<char>>::empty());
        }
    }
}


/// Whether every element of an array decodes as a test.
pub open spec fn tests_ok(items: Seq<JVal>) -> bool {
    forall|i: int| 0 <= i < items.len() ==> test_from_json(#[trigger] items[i]) is Some
}

/// The tests an array of test objects decodes to.
pub open spec fn tests_vals(items: Seq<JVal>) -> Seq<TestView> {
    Seq::new(
        items.len(),
        |i: int|
            if 0 <= i < items.len() {
                match test_from_json(items[i]) {
                    Some(v) => v,
                    None => bare_test(Seq::empty(), Status::Other, 0),
                }
            } else {
                bare_test(Seq::empty(), Status::Other, 0)
            },
    )
}

/// The required test-list member: an array whose every element decodes.
pub open spec fn dec_tests(p: Seq<(Seq<char>, JVal)>, k: Seq<char>) -> Option<Seq<TestView>> {
    match obj_lookup(p, k) {
        Some(JVal::Arr(items)) => if tests_ok(items) {
            Some(tests_vals(items))
        } else {
            None
        },
        _ => None,
    }
}

/// The optional environment member.
pub open spec fn dec_environment(p: Seq<(Seq<char>, JVal)>) -> Option<Option<EnvironmentView>> {
    match obj_lookup(p, "environment"@) {
        None => Some(None),
        Some(v) => match environment_from_json(v) {
            Some(e) => Some(Some(e)),
            None => None,
        },
    }
}

/// The required tool member.
pub open spec fn dec_tool(p: Seq<(Seq<char>, JVal)>) -> Option<ToolView> {
    match obj_lookup(p, "tool"@) {
        Some(v) => tool_from_json(v),
        None => None,
    }
}

/// The required summary member.
pub open spec fn dec_summary(p: Seq<(Seq<char>, JVal)>) -> Option<SummaryView> {
    match obj_lookup(p, "summary"@) {
        Some(v) => summary_from_json(v),
        None => None,
    }
}

/// The typed wire keys of a results record.
pub open spec fn results_typed_keys() -> Set<Seq<char>> {
    Set::new(
        |s: Seq<char>|
            s == "tool"@ || s == "summary"@ || s == "tests"@ || s == "environment"@,
    )
}

/// The members of an encoded results record, in wire order; the test
/// list is always present, an absent environment is omitted.
pub open spec fn results_pairs(v: ResultsView) -> Seq<(Seq<char>, JVal)> {
    seq![
        ("tool"@, tool_jval(v.tool)),
        ("summary"@, summary_jval(v.summary)),
        ("tests"@, JVal::Arr(v.tests.map_values(|tv: TestView| test_jval(tv)))),
    ] + (match v.environment {
        Some(e) => seq![("environment"@, environment_jval(e))],
        None => Seq::<(Seq<char>, JVal)>::empty(),
    }) + v.extra
}

/// The encoded form of a results record.
pub open spec fn results_jval(v: ResultsView) -> JVal {
    JVal::Obj(results_pairs(v))
}

/// The results a document value decodes to, when its tool, summary,
/// test list and optional environment all have the required shape.
pub open spec fn results_from_pairs(p: Seq<(Seq<char>, JVal)>) -> Option<ResultsView> {
    if dec_tool(p) is Some && dec_summary(p) is Some && dec_tests(p, "tests"@) is Some
        && dec_environment(p) is Some {
        Some(
            ResultsView {
                tool: dec_tool(p)->Some_0,
                summary: dec_summary(p)->Some_0,
                tests: dec_tests(p, "tests"@)->Some_0,
                environment: dec_environment(p)->Some_0,
                extra: extras_of(p, results_typed_keys()),
            },
        )
    } else {
        None
    }
}

/// The results a document value decodes to, when it is a well-shaped
/// object.
pub open spec fn results_from_json(v: JVal) -> Option<ResultsView> {
    match v {
        JVal::Obj(p) => results_from_pairs(p),
        _ => None,
    }
}

impl Results {
    /// Encodes the results as a document value: tool, summary, the test
    /// list (present even when empty), the environment when present,
    /// extension members inlined after.
    pub fn to_json(&self) -> (r: Json)
        ensures
            r@ == results_jval(self@),
    {
        let mut out: Vec<(String, Json)> = Vec::new();
        out.push((String::from_str("tool"), self.tool.to_json()));
        out.push((String::from_str("summary"), self.summary.to_json()));
        let mut items: Vec<Json> = Vec::new();
        let mut i: usize = 0;
        while i < self.tests.len()
            invariant
                0 <= i <= self.tests.len(),
                items@.len() == i,
                forall|j: int| 0 <= j < i ==> items@[j]@ == test_jval(self.tests@[j]@),
            decreases self.tests.len() - i,
        {
            items.push(self.tests[i].to_json());
            i += 1;
        }
        let arr = Json::Arr(items);
        proof {
            crate::json::lemma_json_view(arr);
            assert(crate::json::jvals_view(items@) =~= self@.tests.map_values(
                |tv: TestView| test_jval(tv),
            ));
        }
        out.push((String::from_str("tests"), arr));
        match &self.environment {
            Some(e) => out.push((String::from_str("environment"), e.to_json())),
            None => {},
        }
        push_extras(&mut out, &self.extra);
        let r = Json::Obj(out);
        proof {
            crate::json::lemma_json_view(r);
            assert(pairs_view(out@) =~= results_pairs(self@));
        }
        r
    }

    /// Decodes a results record from a document value: the exact inverse
    /// of the shape [`results_from_json`] describes, every unknown
    /// sibling key routed into the extension slot.
    #[verifier::rlimit(50)]
    pub fn from_json(j: &Json) -> (r: Result<Results, DecodeError>)
        ensures
            match r {
                Ok(v) => results_from_json(j@) == Some(v@),
                Err(_) => results_from_json(j@) is None,
            },
    {
        let pairs = match j {
            Json::Obj(p) => p,
            _ => {
                return Err(DecodeError::Field(String::from_str("results")));
            },
        };
        let ghost pv = pairs_view(pairs@);
        proof {
            crate::json::lemma_json_view(*j);
        }
        let tool = match Json::lookup(pairs, "tool") {
            Some(v) => match Tool::from_json(v) {
                Ok(t) => t,
                Err(e) => {
                    return Err(e);
                },
            },
            None => {
                return Err(DecodeError::Field(String::from_str("tool")));
            },
        };
        let summary = match Json::lookup(pairs, "summary") {
            Some(v) => match Summary::from_json(v) {
                Ok(s) => s,
                Err(e) => {
                    return Err(e);
                },
            },
            None => {
                return Err(DecodeError::Field(String::from_str("summary")));
            },
        };
        let tests = match get_tests(pairs, "tests") {
            Ok(v) => v,
            Err(e) => {
                return Err(e);
            },
        };
        let environment = match Json::lookup(pairs, "environment") {
            Some(v) => match Environment::from_json(v) {
                Ok(e) => Some(e),
                Err(e) => {
                    return Err(e);
                },
            },
            None => None,
        };
        let mut typed: Vec<&str> = Vec::new();
        typed.push("tool");
        typed.push("summary");
        typed.push("tests");
        typed.push("environment");
        proof {
            assert forall|s: Seq<char>| strs_set(typed@).contains(s) implies results_typed_keys()
                .contains(s) by {
                let i = choose|i: int| 0 <= i < typed@.len() && typed@[i]@ == s;
            }
            assert forall|s: Seq<char>| results_typed_keys().contains(s) implies strs_set(typed@)
                .contains(s) by {
                if s == "tool"@ {
                    assert(typed@[0]@ == s);
                } else if s == "summary"@ {
                    assert(typed@[1]@ == s);
                } else if s == "tests"@ {
                    assert(typed@[2]@ == s);
                } else {
                    assert(typed@[3]@ == s);
                }
            }
            assert(strs_set(typed@) =~= results_typed_keys());
        }
        let extra = collect_extras(pairs, typed.as_slice());
        let v = Results { tool, summary, tests, environment, extra };
        proof {
            assert(results_from_json(j@) == Some(v@)) by {
                assert(results_from_pairs(pv) matches Some(w) && w =~= v@);
            }
        }
        Ok(v)
    }
}

/// Looks up the required test-list member. A mistyped element fails the
/// decode.
#[verifier::loop_isolation(false)]
fn get_tests(pairs: &Vec<(String, Json)>, key: &str) -> (r: Result<Vec<Test>, DecodeError>)
    ensures
        match r {
            Ok(v) => dec_tests(pairs_view(pairs@), key@) == Some(v@.map_values(|t: Test| t@)),
            Err(_) => dec_tests(pairs_view(pairs@), key@) is None,
        },
{
    match Json::lookup(pairs, key) {
        None => Err(DecodeError::Field(key.to_owned())),
        Some(Json::Arr(items)) => {
            proof {
                crate::json::lemma_jvals_of(items@);
            }
            let ghost iv = crate::json::jvals_of(items@);
            let mut out: Vec<Test> = Vec::new();
            let mut i: usize = 0;
            while i < items.len()
                invariant
                    0 <= i <= items.len(),
                    out@.len() == i,
                    forall|j: int|
                        0 <= j < i ==> test_from_json(#[trigger] iv[j]) == Some(out@[j]@),
                decreases items.len() - i,
            {
                match Test::from_json(&items[i]) {
                    Ok(t) => out.push(t),
                    Err(e) => {
                        proof {
                            assert(iv[i as int] == items@[i as int]@);
                            assert(!tests_ok(iv));
                        }
                        return Err(e);
                    },
                }
                i += 1;
            }
            proof {
                assert(tests_ok(iv));
                assert(out@.map_values(|t: Test| t@) =~= tests_vals(iv));
            }
            Ok(out)
        },
        Some(other) => {
            proof {
                assert(!(other@ is Arr));
            }
            Err(DecodeError::Field(key.to_owned()))
        },
    }
}

} // verus!
