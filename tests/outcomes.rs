use backup_rs::ui::{failed_labels, run_stage, skipped_stage, Section, StageOutcome};

fn success(label: &str) -> StageOutcome {
    StageOutcome {
        label: label.into(),
        success: true,
        stdout: String::new(),
        stderr: String::new(),
        error: None,
    }
}

fn failure(label: &str, err: &str, stdout: &str, stderr: &str) -> StageOutcome {
    StageOutcome {
        label: label.into(),
        success: false,
        stdout: stdout.into(),
        stderr: stderr.into(),
        error: Some(err.into()),
    }
}

#[test]
fn success_outcome_is_not_failed() {
    assert!(!success("Check").failed());
}

#[test]
fn failure_outcome_is_failed() {
    assert!(failure("Check", "oh no", "", "").failed());
}

#[test]
fn run_stage_success_sets_success_true() {
    // `true` exits 0 and writes nothing.
    let o = run_stage("Test", &["true".into()], Ok((true, String::new(), String::new())));
    assert!(o.success);
    assert_eq!(o.label, "Test");
    assert!(o.error.is_none());
}

#[test]
fn run_stage_failure_sets_success_false() {
    // `false` exits 1 and writes nothing.
    let o = run_stage("Test", &["false".into()], Ok((false, String::new(), String::new())));
    assert!(!o.success);
    assert!(o.error.is_some());
}

#[test]
fn run_stage_captures_stdout_on_failure() {
    // `sh -c "echo bad output; exit 1"` writes one line and exits 1.
    let o = run_stage(
        "Test",
        &["sh".into(), "-c".into(), "echo bad output; exit 1".into()],
        Ok((false, "bad output\n".to_string(), String::new())),
    );
    assert!(!o.success);
    assert!(o.stdout.contains("bad output"));
}

#[test]
fn run_stage_non_zero_exit_names_the_command() {
    let o = run_stage(
        "Check",
        &["rustic".into(), "-r".into(), "/mnt/my nas".into(), "check".into()],
        Ok((false, "out".to_string(), "err".to_string())),
    );
    assert_eq!(o.error.as_deref(), Some("command exited non-zero: rustic -r /mnt/my nas check"));
    assert_eq!(o.stdout, "out");
    assert_eq!(o.stderr, "err");
    assert_eq!(o.label, "Check");
}

#[test]
fn run_stage_spawn_error_keeps_message_and_drops_output() {
    let o = run_stage("Backup", &["missing".into()], Err("failed to spawn: missing".to_string()));
    assert!(!o.success);
    assert_eq!(o.error.as_deref(), Some("failed to spawn: missing"));
    assert!(o.stdout.is_empty());
    assert!(o.stderr.is_empty());
}

#[test]
fn run_stage_success_keeps_captured_output() {
    let o = run_stage("Backup", &["x".into()], Ok((true, "info".to_string(), "warn".to_string())));
    assert!(o.success);
    assert_eq!(o.stdout, "info");
    assert_eq!(o.stderr, "warn");
    assert!(o.error.is_none());
}

#[test]
fn outcome_with_error_never_succeeds() {
    let results: Vec<Result<(bool, String, String), String>> = vec![
        Ok((true, String::new(), String::new())),
        Ok((false, String::new(), String::new())),
        Err("boom".to_string()),
    ];
    for r in results {
        let o = run_stage("Stage", &["cmd".into()], r);
        assert!(o.error.is_none() || !o.success);
    }
    let s = skipped_stage("Mount");
    assert!(s.error.is_none() || !s.success);
}

#[test]
fn skipped_stage_is_success() {
    let o = skipped_stage("Mount");
    assert!(o.success);
    assert_eq!(o.label, "Mount");
}

#[test]
fn skipped_stage_has_no_output_or_error() {
    let o = skipped_stage("Check");
    assert!(o.success);
    assert!(o.stdout.is_empty());
    assert!(o.stderr.is_empty());
    assert!(o.error.is_none());
}

#[test]
fn summary_with_all_successes_does_not_list_failures() {
    let outcomes = vec![success("Mount"), success("Check"), success("Backup")];
    assert!(failed_labels(&outcomes).is_empty());
}

#[test]
fn summary_with_failure_includes_failed_stages() {
    let outcomes = vec![
        success("Mount"),
        failure("Check", "repo corrupt", "", "error detail"),
        success("Backup"),
    ];
    assert_eq!(failed_labels(&outcomes), vec!["Check"]);
}

#[test]
fn failed_labels_keep_run_order() {
    let outcomes = vec![failure("B", "x", "", ""), success("A"), failure("C", "y", "", "")];
    assert_eq!(failed_labels(&outcomes), vec!["B", "C"]);
    assert!(failed_labels(&[]).is_empty());
}

#[test]
fn report_of_success_is_one_status_line() {
    let r = success("Backup").report();
    assert_eq!(r, vec![(Section::Status(true), "Backup".to_string())]);
}

#[test]
fn report_of_failure_shows_error_then_stdout_then_stderr() {
    let r = failure("Check", "repo corrupt", "out", "err").report();
    assert_eq!(
        r,
        vec![
            (Section::Status(false), "Check".to_string()),
            (Section::Error, "repo corrupt".to_string()),
            (Section::Stdout, "out".to_string()),
            (Section::Stderr, "err".to_string()),
        ]
    );
}

#[test]
fn report_of_failure_skips_empty_streams() {
    let r = failure("Check", "repo corrupt", "", "detail").report();
    assert_eq!(
        r,
        vec![
            (Section::Status(false), "Check".to_string()),
            (Section::Error, "repo corrupt".to_string()),
            (Section::Stderr, "detail".to_string()),
        ]
    );
}
