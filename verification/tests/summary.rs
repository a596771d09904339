use ctrf::summary::Summary;

use std::time::{SystemTime, UNIX_EPOCH};

fn now_millis() -> u64 {
    SystemTime::now()
        .duration_since(UNIX_EPOCH)
        .expect("time conversion error")
        .as_millis() as u64
}

#[test]
fn summary_add_passed() {
    const PASSED_COUNT: usize = 5;
    let time = now_millis();
    let mut summary = Summary::new(time, time);

    summary.passed(PASSED_COUNT);

    assert_eq!(summary.get_passed(), PASSED_COUNT);
    assert_eq!(summary.get_tests(), PASSED_COUNT);
}

#[test]
fn summary_add_failed() {
    const FAILED_COUNT: usize = 20;
    let time = now_millis();
    let mut summary = Summary::new(time, time);

    summary.passed(FAILED_COUNT);

    assert_eq!(summary.get_passed(), FAILED_COUNT);
    assert_eq!(summary.get_tests(), FAILED_COUNT);
}

#[test]
fn summary_add_pending() {
    const PENDING_COUNT: usize = 10;
    let time = now_millis();
    let mut summary = Summary::new(time, time);

    summary.passed(PENDING_COUNT);

    assert_eq!(summary.get_passed(), PENDING_COUNT);
    assert_eq!(summary.get_tests(), PENDING_COUNT);
}

#[test]
fn summary_add_skipped() {
    const SKIPPED_COUNT: usize = 2;
    let time = now_millis();
    let mut summary = Summary::new(time, time);

    summary.passed(SKIPPED_COUNT);

    assert_eq!(summary.get_passed(), SKIPPED_COUNT);
    assert_eq!(summary.get_tests(), SKIPPED_COUNT);
}

#[test]
fn summary_add_other() {
    const OTHER_COUNT: usize = 50;
    let time = now_millis();
    let mut summary = Summary::new(time, time);

    summary.passed(OTHER_COUNT);

    assert_eq!(summary.get_passed(), OTHER_COUNT);
    assert_eq!(summary.get_tests(), OTHER_COUNT);
}

#[test]
fn add_all_types() {
    const PASSED_COUNT: usize = 5;
    const FAILED_COUNT: usize = 40;
    const PENDING_COUNT: usize = 300;
    const SKIPPED_COUNT: usize = 2000;
    const OTHER_COUNT: usize = 10000;
    let time = now_millis();
    let mut summary = Summary::new(time, time);

    summary.passed(PASSED_COUNT);
    summary.failed(FAILED_COUNT);
    summary.skipped(SKIPPED_COUNT);
    summary.pending(PENDING_COUNT);
    summary.other(OTHER_COUNT);

    assert_eq!(summary.get_passed(), PASSED_COUNT);
    assert_eq!(summary.get_failed(), FAILED_COUNT);
    assert_eq!(summary.get_skipped(), SKIPPED_COUNT);
    assert_eq!(summary.get_pending(), PENDING_COUNT);
    assert_eq!(summary.get_other(), OTHER_COUNT);
    assert_eq!(
        summary.get_tests(),
        PASSED_COUNT + FAILED_COUNT + PENDING_COUNT + SKIPPED_COUNT + OTHER_COUNT,
    );
}

#[test]
fn revise_value() {
    const PASSED_COUNT: usize = 5;
    const FAILED_COUNT: usize = 40;
    const PENDING_COUNT: usize = 300;
    const SKIPPED_COUNT: usize = 2000;
    const OTHER_COUNT: usize = 10000;
    let time = now_millis();
    let mut summary = Summary::new(time, time);

    summary.passed(PASSED_COUNT);
    summary.failed(FAILED_COUNT);
    summary.skipped(SKIPPED_COUNT);
    summary.pending(PENDING_COUNT);
    summary.other(OTHER_COUNT);

    assert_eq!(summary.get_passed(), PASSED_COUNT);
    assert_eq!(summary.get_failed(), FAILED_COUNT);
    assert_eq!(summary.get_skipped(), SKIPPED_COUNT);
    assert_eq!(summary.get_pending(), PENDING_COUNT);
    assert_eq!(summary.get_other(), OTHER_COUNT);
    assert_eq!(
        summary.get_tests(),
        PASSED_COUNT + FAILED_COUNT + PENDING_COUNT + SKIPPED_COUNT + OTHER_COUNT,
    );

    const NEW_PASSED: usize = 24681;
    summary.passed(NEW_PASSED);

    assert_eq!(summary.get_passed(), NEW_PASSED);
    assert_eq!(summary.get_failed(), FAILED_COUNT);
    assert_eq!(summary.get_skipped(), SKIPPED_COUNT);
    assert_eq!(summary.get_pending(), PENDING_COUNT);
    assert_eq!(summary.get_other(), OTHER_COUNT);
    assert_eq!(
        summary.get_tests(),
        NEW_PASSED + FAILED_COUNT + PENDING_COUNT + SKIPPED_COUNT + OTHER_COUNT,
    );
}

#[test]
fn add_suites() {
    const SUITES: Option<usize> = Some(16);
    let time = now_millis();
    let mut summary = Summary::new(time, time);

    summary.suites(SUITES);

    assert_eq!(summary.get_suites(), SUITES)
}

#[test]
fn all_passed_follows_the_counters() {
    let mut summary = Summary::new(0, 0);
    assert!(summary.all_passed());
    summary.passed(3);
    assert!(summary.all_passed());
    summary.failed(1);
    assert!(!summary.all_passed());
}
