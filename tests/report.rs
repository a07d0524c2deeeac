use sigil::params::ParamMap;
use sigil::report::{blank, seconds_between, signed_text, status_report, status_text, unsigned_text};
use sigil::task::{TaskInstance, TaskStatus};

#[test]
fn decimal_texts() {
    assert_eq!(unsigned_text(0), "0");
    assert_eq!(unsigned_text(1234567890), "1234567890");
    assert_eq!(unsigned_text(u64::MAX), "18446744073709551615");
    assert_eq!(signed_text(-42), "-42");
    assert_eq!(signed_text(i64::MIN), "-9223372036854775808");
    assert_eq!(signed_text(7), "7");
}

#[test]
fn elapsed_whole_seconds_truncate_toward_zero() {
    assert_eq!(seconds_between(0, 2_999_999), 2);
    assert_eq!(seconds_between(2_999_999, 0), -2);
    assert_eq!(seconds_between(i64::MIN, i64::MAX), 18446744073709);
}

#[test]
fn blank_text() {
    assert!(blank(" \n\t"));
    assert!(blank(""));
    assert!(!blank(" x "));
}

#[test]
fn status_names() {
    assert_eq!(status_text(TaskStatus::Completed), "Completed");
    assert_eq!(status_text(TaskStatus::Retrying), "Retrying");
}

#[test]
fn report_of_a_completed_run() {
    let mut params = ParamMap::new();
    params.insert("message".to_string(), "Hi".to_string());
    // 2024-01-02 03:04:05 UTC
    let created: i64 = 1_704_164_645_000_000;
    let mut inst = TaskInstance::new(0xa1a2a3a4b1b2c1c2d1d2d3d4d5d6d7d8, "greet", params, created);
    inst.start(created + 1_000_000);
    inst.finish(&Ok("Hi\n".to_string()), created + 4_500_000);
    let lines = status_report(&inst);
    assert_eq!(
        lines,
        vec![
            "ID: a1a2a3a4-b1b2-c1c2-d1d2-d3d4d5d6d7d8",
            "Name: greet",
            "Status: Completed",
            "Created: 2024-01-02 03:04:05 UTC",
            "Started: 2024-01-02 03:04:06 UTC",
            "Completed: 2024-01-02 03:04:09 UTC",
            "Duration: 3s",
            "Parameters:",
            "  message: Hi",
            "Output:\nHi\n",
        ]
    );
}

#[test]
fn report_of_a_pending_run_with_blank_output() {
    let mut inst = TaskInstance::new(1, "t", ParamMap::new(), 0);
    inst.output = Some("  \n".to_string());
    inst.error = Some("boom".to_string());
    inst.retry_count = 2;
    let lines = status_report(&inst);
    assert_eq!(
        lines,
        vec![
            "ID: 00000000-0000-0000-0000-000000000001",
            "Name: t",
            "Status: Pending",
            "Created: 1970-01-01 00:00:00 UTC",
            "Retries: 2",
            "Error:\nboom",
        ]
    );
}
