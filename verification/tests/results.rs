use ctrf::json::Json;
use ctrf::results::{Results, ResultsBuilder};
use ctrf::test::{Status, Test};
use ctrf::tool::{Tool, TOOL_NAME};

use std::time::{SystemTime, UNIX_EPOCH};

fn now_millis() -> u64 {
    SystemTime::now()
        .duration_since(UNIX_EPOCH)
        .expect("time conversion error")
        .as_millis() as u64
}

fn tests_text(results: &Results) -> String {
    let items: Vec<Json> = results.tests().iter().map(|t| t.to_json()).collect();
    Json::Arr(items).to_text()
}

#[test]
fn results_add_passed() {
    const TEST_COUNT: usize = 2;

    let tool = Tool::new("ctrf-rs", None);
    let mut builder = ResultsBuilder::new(tool);

    for t in 0..TEST_COUNT {
        builder.add_test(Test::new(format!("pass{t}"), Status::Passed, 0));
    }

    let time = now_millis();
    let results = builder.build(time, time);

    let tool_text = results.tool().to_json().to_text();
    let summary_text = results.summary().to_json().to_text();
    let tests_text = tests_text(&results);
    assert!(tool_text.contains(TOOL_NAME));
    assert!(summary_text.contains(&format!(r#""tests":{TEST_COUNT}"#)));
    assert!(summary_text.contains(&format!(r#""passed":{TEST_COUNT}"#)));
    for t in 0..TEST_COUNT {
        assert!(tests_text.contains(&format!(r#""name":"pass{t}""#)));
    }
}

#[test]
fn results_add_failed() {
    const TEST_COUNT: usize = 4;

    let tool = Tool::new("ctrf-rs", None);
    let mut builder = ResultsBuilder::new(tool);

    for t in 0..TEST_COUNT {
        builder.add_test(Test::new(format!("fail{t}"), Status::Failed, 0));
    }

    let time = now_millis();
    let results = builder.build(time, time);

    let tool_text = results.tool().to_json().to_text();
    let summary_text = results.summary().to_json().to_text();
    let tests_text = tests_text(&results);
    assert!(tool_text.contains(TOOL_NAME));
    assert!(summary_text.contains(&format!(r#""tests":{TEST_COUNT}"#)));
    assert!(summary_text.contains(&format!(r#""failed":{TEST_COUNT}"#)));
    for t in 0..TEST_COUNT {
        assert!(tests_text.contains(&format!(r#""name":"fail{t}""#)));
    }
}

#[test]
fn results_add_pending() {
    const TEST_COUNT: usize = 6;

    let tool = Tool::new("ctrf-rs", None);
    let mut builder = ResultsBuilder::new(tool);

    for t in 0..TEST_COUNT {
        builder.add_test(Test::new(format!("pending{t}"), Status::Pending, 0));
    }

    let time = now_millis();
    let results = builder.build(time, time);

    let tool_text = results.tool().to_json().to_text();
    let summary_text = results.summary().to_json().to_text();
    let tests_text = tests_text(&results);
    assert!(tool_text.contains(TOOL_NAME));
    assert!(summary_text.contains(&format!(r#""tests":{TEST_COUNT}"#)));
    assert!(summary_text.contains(&format!(r#""pending":{TEST_COUNT}"#)));
    for t in 0..TEST_COUNT {
        assert!(tests_text.contains(&format!(r#""name":"pending{t}""#)));
    }
}

#[test]
fn results_add_skipped() {
    const TEST_COUNT: usize = 8;

    let tool = Tool::new("ctrf-rs", None);
    let mut builder = ResultsBuilder::new(tool);

    for t in 0..TEST_COUNT {
        builder.add_test(Test::new(format!("skipped{t}"), Status::Skipped, 0));
    }

    let time = now_millis();
    let results = builder.build(time, time);

    let tool_text = results.tool().to_json().to_text();
    let summary_text = results.summary().to_json().to_text();
    let tests_text = tests_text(&results);
    assert!(tool_text.contains(TOOL_NAME));
    assert!(summary_text.contains(&format!(r#""tests":{TEST_COUNT}"#)));
    assert!(summary_text.contains(&format!(r#""skipped":{TEST_COUNT}"#)));
    for t in 0..TEST_COUNT {
        assert!(tests_text.contains(&format!(r#""name":"skipped{t}""#)));
    }
}

#[test]
fn results_add_other() {
    const TEST_COUNT: usize = 10;

    let tool = Tool::new("ctrf-rs", None);
    let mut builder = ResultsBuilder::new(tool);

    for t in 0..TEST_COUNT {
        builder.add_test(Test::new(format!("other{t}"), Status::Other, 0));
    }

    let time = now_millis();
    let results = builder.build(time, time);

    let tool_text = results.tool().to_json().to_text();
    let summary_text = results.summary().to_json().to_text();
    let tests_text = tests_text(&results);
    assert!(tool_text.contains(TOOL_NAME));
    assert!(summary_text.contains(&format!(r#""tests":{TEST_COUNT}"#)));
    assert!(summary_text.contains(&format!(r#""other":{TEST_COUNT}"#)));
    for t in 0..TEST_COUNT {
        assert!(tests_text.contains(&format!(r#""name":"other{t}""#)));
    }
}

#[test]
fn add_many() {
    const PRESENT_SUITE: &str = "present";
    const ABSENT_SUITE: &str = "absent";
    const UNKNOWN_SUITE: &str = "unknown";

    let tool = Tool::new("ctrf-rs", None);
    let mut builder = ResultsBuilder::new(tool);

    const PASS_COUNT: usize = 10;
    for t in 0..PASS_COUNT {
        let mut test = Test::new(format!("pass{t}"), Status::Passed, 0);
        test.suite = Some(String::from(PRESENT_SUITE));
        builder.add_test(test);
    }

    const FAIL_COUNT: usize = 8;
    for t in 0..FAIL_COUNT {
        let mut test = Test::new(format!("fail{t}"), Status::Failed, 0);
        test.suite = Some(String::from(PRESENT_SUITE));
        builder.add_test(test);
    }

    const PENDING_COUNT: usize = 6;
    for t in 0..PENDING_COUNT {
        let mut test = Test::new(format!("pending{t}"), Status::Pending, 0);
        test.suite = Some(String::from(ABSENT_SUITE));
        builder.add_test(test);
    }

    const SKIPPED_COUNT: usize = 4;
    for t in 0..SKIPPED_COUNT {
        let mut test = Test::new(format!("skipped{t}"), Status::Skipped, 0);
        test.suite = Some(String::from(ABSENT_SUITE));
        builder.add_test(test);
    }

    const OTHER_COUNT: usize = 2;
    for t in 0..OTHER_COUNT {
        let mut test = Test::new(format!("other{t}"), Status::Other, 0);
        test.suite = Some(String::from(UNKNOWN_SUITE));
        builder.add_test(test);
    }

    const TOTAL_COUNT: usize =
        PASS_COUNT + FAIL_COUNT + PENDING_COUNT + SKIPPED_COUNT + OTHER_COUNT;

    let time = now_millis();
    let results = builder.build(time, time);

    let tool_text = results.tool().to_json().to_text();
    let summary_text = results.summary().to_json().to_text();
    let tests_text = tests_text(&results);
    assert!(tool_text.contains(TOOL_NAME));

    assert!(summary_text.contains(&format!(r#""tests":{TOTAL_COUNT}"#)));
    assert!(summary_text.contains(&format!(r#""passed":{PASS_COUNT}"#)));
    assert!(summary_text.contains(&format!(r#""failed":{FAIL_COUNT}"#)));
    assert!(summary_text.contains(&format!(r#""pending":{PENDING_COUNT}"#)));
    assert!(summary_text.contains(&format!(r#""skipped":{SKIPPED_COUNT}"#)));
    assert!(summary_text.contains(&format!(r#""other":{OTHER_COUNT}"#)));
    assert!(summary_text.contains(r#""suites":3"#));

    for t in 0..PASS_COUNT {
        assert!(tests_text.contains(&format!(r#""name":"pass{t}""#)));
    }
    for t in 0..FAIL_COUNT {
        assert!(tests_text.contains(&format!(r#""name":"fail{t}""#)));
    }
    for t in 0..PENDING_COUNT {
        assert!(tests_text.contains(&format!(r#""name":"pending{t}""#)));
    }
    for t in 0..SKIPPED_COUNT {
        assert!(tests_text.contains(&format!(r#""name":"skipped{t}""#)));
    }
    for t in 0..OTHER_COUNT {
        assert!(tests_text.contains(&format!(r#""name":"other{t}""#)));
    }
}

#[test]
fn zero_tests_build() {
    let results = ResultsBuilder::new(Tool::new("ctrf-rs", None)).build(5, 3);
    let summary = results.summary();
    assert_eq!(summary.get_tests(), 0);
    assert_eq!(summary.get_suites(), None);
    // An inverted window is recorded, not rejected.
    assert_eq!(summary.get_start(), 5);
    assert_eq!(summary.get_stop(), 3);
}

#[test]
fn duration_is_truncated_to_millis() {
    assert_eq!(Test::new(String::from("a"), Status::Passed, 999).duration(), 0);
    assert_eq!(Test::new(String::from("b"), Status::Passed, 1000).duration(), 1);
    assert_eq!(Test::new(String::from("c"), Status::Passed, 1001).duration(), 1);
    assert_eq!(Test::new(String::from("d"), Status::Passed, 1500).duration(), 1);
}
