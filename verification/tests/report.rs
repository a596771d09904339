use ctrf::json::Json;
use ctrf::report::{Report, SpecVersion, REPORT_FORMAT};
use ctrf::results::ResultsBuilder;
use ctrf::test::{Status, Test};
use ctrf::tool::Tool;

use std::time::{SystemTime, UNIX_EPOCH};

const TEMPLATE_JSON: &str = r#"{
  "reportFormat": "CTRF",
  "specVersion": "0.0.0",
  "results": {
    "tool": {
      "name": "ctrf-rs"
    },
    "summary": {
      "tests": 0,
      "passed": 0,
      "failed": 0,
      "pending": 0,
      "skipped": 0,
      "other": 0,
      "start": START,
      "stop": STOP
    },
    "tests": []
  }
}"#;

fn now_millis() -> u64 {
    SystemTime::now()
        .duration_since(UNIX_EPOCH)
        .expect("time conversion error")
        .as_millis() as u64
}

#[test]
fn create_empty_report() {
    let time = now_millis();
    let results = ResultsBuilder::new(Tool::new("ctrf-rs", None)).build(time, time);
    let report = Report::new(None, None, None, results);

    assert_eq!(report.report_format().as_str(), REPORT_FORMAT);
    assert_eq!(report.spec_version(), SpecVersion { major: 0, minor: 0, patch: 0 });
    assert_eq!(report.report_id(), &None);
    assert_eq!(report.timestamp, None);
    assert_eq!(report.generated_by, None);
}

#[test]
fn create_report_with_id() {
    let time = now_millis();
    let results = ResultsBuilder::new(Tool::new("ctrf-rs", None)).build(time, time);
    let id = Some(uuid::Uuid::new_v4().to_string());
    let report = Report::new(id.clone(), None, None, results);

    assert_eq!(report.report_format().as_str(), REPORT_FORMAT);
    assert_eq!(report.spec_version(), SpecVersion { major: 0, minor: 0, patch: 0 });
    assert_eq!(report.report_id(), &id);
    assert_eq!(report.timestamp, None);
    assert_eq!(report.generated_by, None);
}

#[test]
fn create_report_with_timestamp() {
    let time = now_millis();
    let results = ResultsBuilder::new(Tool::new("ctrf-rs", None)).build(time, time);
    let report = Report::new(None, Some(time), None, results);

    assert_eq!(report.report_format().as_str(), REPORT_FORMAT);
    assert_eq!(report.spec_version(), SpecVersion { major: 0, minor: 0, patch: 0 });
    assert_eq!(report.report_id(), &None);
    assert_eq!(report.timestamp, Some(format!("{time}")));
    assert_eq!(report.generated_by, None);
}

#[test]
fn create_report_with_generated_by() {
    let time = now_millis();
    let results = ResultsBuilder::new(Tool::new("ctrf-rs", None)).build(time, time);
    let gen_by = Some(String::from("ctrf-rs"));
    let report = Report::new(None, None, gen_by, results);

    assert_eq!(report.report_format().as_str(), REPORT_FORMAT);
    assert_eq!(report.spec_version(), SpecVersion { major: 0, minor: 0, patch: 0 });
    assert_eq!(report.report_id(), &None);
    assert_eq!(report.timestamp, None);
    assert_eq!(report.generated_by, Some(String::from("ctrf-rs")));
}

#[test]
fn serialize_to_string() {
    let time = now_millis();
    let results = ResultsBuilder::new(Tool::new("ctrf-rs", None)).build(time, time);
    let report = Report::new(None, None, None, results);

    assert_eq!(report.report_format().as_str(), REPORT_FORMAT);
    assert_eq!(report.spec_version(), SpecVersion { major: 0, minor: 0, patch: 0 });

    let report_text = report.to_string().expect("report generation failed");
    let exp_text = r#"{"reportFormat":"CTRF","specVersion":"0.0.0","results":{"tool":{"name":"ctrf-rs"},"summary":{"tests":0,"passed":0,"failed":0,"pending":0,"skipped":0,"other":0,"start":START,"stop":STOP},"tests":[]}}"#;
    let time_str = time.to_string();

    assert_eq!(
        report_text,
        exp_text
            .replace("START", &time_str)
            .replace("STOP", &time_str)
    );
}

#[test]
fn serialize_to_string_pretty() {
    let time = now_millis();
    let results = ResultsBuilder::new(Tool::new("ctrf-rs", None)).build(time, time);
    let report = Report::new(None, None, None, results);

    assert_eq!(report.report_format().as_str(), REPORT_FORMAT);
    assert_eq!(report.spec_version(), SpecVersion { major: 0, minor: 0, patch: 0 });

    let report_text = report.to_string_pretty().expect("report generation failed");
    let time_str = time.to_string();

    assert_eq!(
        report_text,
        TEMPLATE_JSON
            .replace("START", &time_str)
            .replace("STOP", &time_str)
    );
}

#[test]
fn deserialize_happy_path() {
    let time = 1234567890000_u64;
    let time_str = time.to_string();
    let json = TEMPLATE_JSON
        .replace("START", &time_str)
        .replace("STOP", &time_str);

    let report = Report::from_str(&json).expect("deserialization failed");

    assert_eq!(report.report_format().as_str(), REPORT_FORMAT);
    assert_eq!(report.spec_version(), SpecVersion { major: 0, minor: 0, patch: 0 });

    let results = ResultsBuilder::new(Tool::new("ctrf-rs", None)).build(time, time);
    let report_exp = Report::new(None, None, None, results);

    assert_eq!(
        report.to_string().expect("encode failed"),
        report_exp.to_string().expect("encode failed")
    );
}

#[test]
fn deserialize_bad_format() {
    let time = 1234567890000_u64;
    let time_str = time.to_string();
    let bad_format = "INVALID";
    let json = TEMPLATE_JSON
        .replace("START", &time_str)
        .replace("STOP", &time_str)
        .replace("CTRF", bad_format);

    let report_result = Report::from_str(&json);
    let exp_msg = format!("unrecognized report format '{bad_format}'");

    match report_result {
        Ok(_) => panic!("report deserialization should have failed"),
        Err(e) => {
            if !e.message().contains(&exp_msg) {
                panic!(
                    "deserialization result did not contain expected message \"{}\"",
                    exp_msg
                );
            }
        }
    }
}

#[test]
fn deserialize_matches_serde_json_reading() {
    let time = 1234567890000_u64;
    let time_str = time.to_string();
    let json = TEMPLATE_JSON
        .replace("START", &time_str)
        .replace("STOP", &time_str);

    // The compact re-encoding of the decoded report must parse, under an
    // independent JSON reader, to the same value as the original text.
    let report = Report::from_str(&json).expect("deserialization failed");
    let ours: serde_json::Value =
        serde_json::from_str(&report.to_string().expect("encode failed")).expect("not JSON");
    let reference: serde_json::Value = serde_json::from_str(&json).expect("not JSON");
    assert_eq!(ours, reference);
}

#[test]
fn version_drift_is_tolerated() {
    let time = 1234567890000_u64;
    let time_str = time.to_string();
    let json = TEMPLATE_JSON
        .replace("START", &time_str)
        .replace("STOP", &time_str)
        .replace("0.0.0", "12.34.56");

    let report = Report::from_str(&json).expect("deserialization failed");
    assert_eq!(report.spec_version(), SpecVersion { major: 12, minor: 34, patch: 56 });

    let semver_check = semver::Version::parse("12.34.56").expect("semver rejected the triple");
    assert_eq!(semver_check.major, 12);
}

#[test]
fn malformed_version_is_rejected() {
    let time = 1234567890000_u64;
    let time_str = time.to_string();
    let json = TEMPLATE_JSON
        .replace("START", &time_str)
        .replace("STOP", &time_str)
        .replace("0.0.0", "not-a-version");

    assert!(Report::from_str(&json).is_err());
}

#[test]
fn malformed_text_is_rejected() {
    assert!(Report::from_str("{\"reportFormat\": ").is_err());
    assert!(Report::from_str("").is_err());
    assert!(Report::from_str("{}").is_err());
}

#[test]
fn from_slice_reads_bytes() {
    let time = 1234567890000_u64;
    let time_str = time.to_string();
    let json = TEMPLATE_JSON
        .replace("START", &time_str)
        .replace("STOP", &time_str);

    let report = Report::from_slice(json.as_bytes()).expect("deserialization failed");
    assert_eq!(report.report_format().as_str(), REPORT_FORMAT);
    assert!(Report::from_slice(&[0xff, 0xfe]).is_err());
}

#[test]
fn unknown_sibling_keys_go_to_the_slot() {
    let time = 1234567890000_u64;
    let time_str = time.to_string();
    let json = TEMPLATE_JSON
        .replace("START", &time_str)
        .replace("STOP", &time_str)
        .replace("\"reportFormat\": \"CTRF\",", "\"reportFormat\": \"CTRF\",\n  \"vendor\": 7,");

    let report = Report::from_str(&json).expect("deserialization failed");
    match report.extra().get("vendor") {
        Some(Json::Num(raw)) => assert_eq!(raw.as_str(), "7"),
        other => panic!("vendor key not routed to the slot: {:?}", other.is_some()),
    }
}

#[test]
fn end_to_end_scenario() {
    let mut builder = ResultsBuilder::new(Tool::new("x", None));
    let mut t1 = Test::new(String::from("a"), Status::Passed, 0);
    t1.suite = None;
    let mut t2 = Test::new(String::from("b"), Status::Passed, 0);
    t2.suite = Some(String::from("S1"));
    let mut t3 = Test::new(String::from("c"), Status::Failed, 0);
    t3.suite = Some(String::from("S1"));
    builder.add_test(t1);
    builder.add_test(t2);
    builder.add_test(t3);

    let results = builder.build(1700000000000, 1700000000000);
    let summary = results.summary();
    assert_eq!(summary.get_tests(), 3);
    assert_eq!(summary.get_passed(), 2);
    assert_eq!(summary.get_failed(), 1);
    assert_eq!(summary.get_pending(), 0);
    assert_eq!(summary.get_skipped(), 0);
    assert_eq!(summary.get_other(), 0);
    assert_eq!(summary.get_suites(), Some(1));
    assert_eq!(summary.get_start(), 1700000000000);
    assert_eq!(summary.get_stop(), 1700000000000);

    let report = Report::new(None, None, None, results);
    let text = report.to_string().expect("encode failed");
    let decoded = Report::from_str(&text).expect("decode failed");
    assert_eq!(decoded.to_string().expect("encode failed"), text);
}
