use ce_integration::report::{log_line, Level, Outcome, Report};

fn sample() -> Report {
    let mut report = Report::new();
    report.record("peering", Outcome::Pass, "fine".to_string());
    report.record("tunnel", Outcome::Blocked, "no capability".to_string());
    report.record("discovery + tags", Outcome::Pass, "found".to_string());
    report
}

#[test]
fn tags_are_seven_wide() {
    assert_eq!(Outcome::Pass.tag(), "PASS   ");
    assert_eq!(Outcome::Fail.tag(), "FAIL   ");
    assert_eq!(Outcome::Blocked.tag(), "BLOCKED");
}

#[test]
fn new_report_is_empty() {
    let report = Report::new();
    assert!(report.rows.is_empty());
    assert!(!report.any_failed());
    assert_eq!(
        report.render(),
        "\n================ CE TWO-NODE MESH MATRIX ================\n\
         --------------------------------------------------------\n  \
         0 passed, 0 failed, 0 blocked\n\
         ========================================================\n\n"
    );
}

#[test]
fn rows_are_kept_in_order() {
    let report = sample();
    assert_eq!(report.rows[0], ("peering".to_string(), Outcome::Pass, "fine".to_string()));
    assert_eq!(
        report.rows[1],
        ("tunnel".to_string(), Outcome::Blocked, "no capability".to_string())
    );
    assert_eq!(report.rows.len(), 3);
}

#[test]
fn blocked_is_no_failure() {
    let mut report = sample();
    assert!(!report.any_failed());
    report.record("pubsub", Outcome::Fail, "late".to_string());
    assert!(report.any_failed());
    report.record("blob availability", Outcome::Pass, "ok".to_string());
    assert!(report.any_failed());
}

#[test]
fn outcomes_are_counted() {
    let report = sample();
    assert_eq!(report.count(Outcome::Pass), 2);
    assert_eq!(report.count(Outcome::Fail), 0);
    assert_eq!(report.count(Outcome::Blocked), 1);
}

#[test]
fn matrix_lines_up() {
    let expected = [
        "",
        "================ CE TWO-NODE MESH MATRIX ================",
        "  PASS     peering                fine",
        "  BLOCKED  tunnel                 no capability",
        "  PASS     discovery + tags       found",
        "--------------------------------------------------------",
        "  2 passed, 0 failed, 1 blocked",
        "========================================================",
        "",
        "",
    ];
    assert_eq!(sample().render(), expected.join("\n"));
}

#[test]
fn recording_gives_the_line_for_the_log() {
    let mut report = Report::new();
    let line = report.record("peering", Outcome::Pass, "fine".to_string());
    assert_eq!(line.level, Level::Info);
    assert_eq!(line.text, "[PASS] peering: fine");
    let line = report.record("pubsub", Outcome::Fail, "late".to_string());
    assert_eq!(line.level, Level::Warn);
    assert_eq!(line.text, "[FAIL] pubsub: late");
    let line = log_line("tunnel", Outcome::Blocked, "no capability");
    assert_eq!(line.level, Level::Warn);
    assert_eq!(line.text, "[BLOCKED] tunnel: no capability");
}
