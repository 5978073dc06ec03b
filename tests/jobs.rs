use build_server::jobs::{finish_build, submit_build, SubmitError};
use build_server::toolchain::{BuildMarkers, RunResult, ABORT_PREFIX, TIMEOUT_DIAGNOSTIC};
use build_server::tracker::{BuildStatus, BuildTracker, Timestamp, NO_DIAGNOSTICS};
use build_server::workspace::{InvalidInput, SourceFile};

fn lib_rs() -> Vec<SourceFile> {
    vec![SourceFile { path: "/src/lib.rs".to_string(), content: "pub fn entry() {}".to_string() }]
}

fn is_uuid_shaped(s: &str) -> bool {
    let b = s.as_bytes();
    b.len() == 36
        && b.iter().enumerate().all(|(i, c)| {
            if i == 8 || i == 13 || i == 18 || i == 23 {
                *c == b'-'
            } else {
                c.is_ascii_hexdigit()
            }
        })
}

fn exited(exit_success: bool, stdout: &str, stderr: &str) -> RunResult {
    RunResult::Exited { exit_success, stdout: stdout.to_string(), stderr: stderr.to_string() }
}

#[test]
fn submitted_job_without_id_gets_a_uuid_and_builds_to_success() {
    let mut tracker = BuildTracker::new();
    let sub = submit_build(&mut tracker, None, "hello".to_string(), &lib_rs()).unwrap();
    assert!(is_uuid_shaped(&sub.job_id));
    let info = tracker.get_build(&sub.job_id).unwrap();
    assert_eq!(info.status, BuildStatus::Building);
    assert_eq!(info.status.as_str(), "building");
    assert_eq!(info.program_name, "hello");
    assert!(info.stderr.is_none());
    assert!(info.completed_at.is_none());
    assert_eq!(tracker.get_build(&sub.job_id).unwrap().status, BuildStatus::Building);

    let stderr = "   Compiling hello v0.1.0\n    Finished `release` profile [optimized] target(s) in 3.1s\n";
    let o = finish_build(&mut tracker, &sub.job_id, "hello", exited(true, "", stderr), &BuildMarkers::standard(), "");
    assert!(o.success);
    let info = tracker.get_build(&sub.job_id).unwrap();
    assert_eq!(info.status, BuildStatus::Success);
    assert_eq!(info.status.as_str(), "success");
    assert_eq!(info.stderr.as_deref(), Some(stderr));
    assert!(info.completed_at.is_some());
    assert_eq!(info.program_name, "hello");
}

#[test]
fn invalid_path_is_refused_and_registers_nothing() {
    let mut tracker = BuildTracker::new();
    let files = vec![SourceFile { path: "/src/../etc/passwd".to_string(), content: String::new() }];
    let r = submit_build(&mut tracker, None, "hello".to_string(), &files);
    match r {
        Err(SubmitError::InvalidInput(InvalidInput::InvalidPath { path })) => assert_eq!(path, "/src/../etc/passwd"),
        _ => panic!("expected a refused path"),
    }
    let id = "1b4e28ba-2fa1-11d2-883f-0016d3cca427".to_string();
    let r = submit_build(&mut tracker, Some(id.clone()), "hello".to_string(), &files);
    assert!(r.is_err());
    assert!(tracker.get_build(&id).is_none());
}

#[test]
fn polling_an_unknown_id_reports_not_found() {
    let mut tracker = BuildTracker::new();
    assert!(tracker.get_build("9f8c2a4e-1d3b-4c5a-8e7f-6a5b4c3d2e1f").is_none());
    submit_build(&mut tracker, None, "p".to_string(), &lib_rs()).unwrap();
    assert!(tracker.get_build("9f8c2a4e-1d3b-4c5a-8e7f-6a5b4c3d2e1f").is_none());
}

#[test]
fn client_supplied_id_is_kept_and_bad_id_refused() {
    let mut tracker = BuildTracker::new();
    let id = "67e55044-10b1-426f-9247-bb680e5fe0c8".to_string();
    let sub = submit_build(&mut tracker, Some(id.clone()), "p".to_string(), &lib_rs()).unwrap();
    assert_eq!(sub.job_id, id);
    assert_eq!(sub.plan.program_dir, format!("programs/{}", id));
    match submit_build(&mut tracker, Some("../../etc".to_string()), "p".to_string(), &lib_rs()) {
        Err(SubmitError::InvalidJobId { job_id }) => assert_eq!(job_id, "../../etc"),
        _ => panic!("expected a refused identifier"),
    }
    assert!(tracker.get_build("../../etc").is_none());
}

#[test]
fn too_many_files_is_refused_synchronously() {
    let mut tracker = BuildTracker::new();
    let files: Vec<SourceFile> = (0..65)
        .map(|i| SourceFile { path: format!("/src/f{}.rs", i), content: String::new() })
        .collect();
    match submit_build(&mut tracker, None, "p".to_string(), &files) {
        Err(SubmitError::InvalidInput(InvalidInput::TooManyFiles { count })) => assert_eq!(count, 65),
        _ => panic!("expected a refused file count"),
    }
}

#[test]
fn compile_error_makes_the_job_fail_with_diagnostics() {
    let mut tracker = BuildTracker::new();
    let sub = submit_build(&mut tracker, None, "my-prog".to_string(), &lib_rs()).unwrap();
    let stderr = "error[E0425]: cannot find value\nerror: could not compile `my_prog`\n";
    let o = finish_build(&mut tracker, &sub.job_id, "my-prog", exited(false, "out\n", stderr), &BuildMarkers::standard(), "\nnotes");
    assert!(!o.success);
    let info = tracker.get_build(&sub.job_id).unwrap();
    assert_eq!(info.status, BuildStatus::Failed);
    assert_eq!(info.stderr.unwrap(), format!("out\n{}\nnotes", stderr));
    assert_eq!(info.program_name, "my_prog");
}

#[test]
fn finished_marker_with_failing_exit_status_is_a_success() {
    let mut tracker = BuildTracker::new();
    let sub = submit_build(&mut tracker, None, "p".to_string(), &lib_rs()).unwrap();
    let stderr = "warning: unused variable\n    Finished release [optimized] target(s)\n";
    let o = finish_build(&mut tracker, &sub.job_id, "p", exited(false, "", stderr), &BuildMarkers::standard(), "notes");
    assert!(o.success);
    assert_eq!(o.diagnostics, stderr);
    assert_eq!(tracker.get_build(&sub.job_id).unwrap().status, BuildStatus::Success);
}

#[test]
fn clean_exit_without_marker_is_a_failure() {
    let mut tracker = BuildTracker::new();
    let sub = submit_build(&mut tracker, None, "p".to_string(), &lib_rs()).unwrap();
    let o = finish_build(&mut tracker, &sub.job_id, "p", exited(true, "", ""), &BuildMarkers::standard(), "notes");
    assert!(!o.success);
    assert_eq!(o.diagnostics, "");
    let info = tracker.get_build(&sub.job_id).unwrap();
    assert_eq!(info.status, BuildStatus::Failed);
    assert_eq!(info.stderr.unwrap(), NO_DIAGNOSTICS);
}

#[test]
fn missing_toolchain_and_timeout_fail_the_job() {
    let mut tracker = BuildTracker::new();
    let a = submit_build(&mut tracker, None, "my prog".to_string(), &lib_rs()).unwrap();
    let b = submit_build(&mut tracker, None, "q".to_string(), &lib_rs()).unwrap();
    let m = BuildMarkers::standard();
    finish_build(&mut tracker, &a.job_id, "my prog", RunResult::Aborted { reason: "No such file".to_string() }, &m, "");
    finish_build(&mut tracker, &b.job_id, "q", RunResult::TimedOut, &m, "");
    let ia = tracker.get_build(&a.job_id).unwrap();
    assert_eq!(ia.status, BuildStatus::Failed);
    assert_eq!(ia.stderr.unwrap(), format!("{}No such file", ABORT_PREFIX));
    assert_eq!(ia.program_name, "my prog");
    let ib = tracker.get_build(&b.job_id).unwrap();
    assert_eq!(ib.status, BuildStatus::Failed);
    assert_eq!(ib.stderr.unwrap(), TIMEOUT_DIAGNOSTIC);
}

#[test]
fn a_terminal_job_is_never_completed_again() {
    let mut tracker = BuildTracker::new();
    tracker.start_build_at("job".to_string(), "p".to_string(), Timestamp { secs: 10, nanos: 5 });
    tracker.complete_build_at("job", "ok".to_string(), "p".to_string(), true, Timestamp { secs: 20, nanos: 0 });
    tracker.complete_build_at("job", "late".to_string(), "q".to_string(), false, Timestamp { secs: 30, nanos: 0 });
    let info = tracker.get_build("job").unwrap();
    assert_eq!(info.status, BuildStatus::Success);
    assert_eq!(info.stderr.as_deref(), Some("ok"));
    assert_eq!(info.program_name, "p");
    assert_eq!(info.started_at, Timestamp { secs: 10, nanos: 5 });
    assert_eq!(info.completed_at, Some(Timestamp { secs: 20, nanos: 0 }));
}

#[test]
fn completing_an_unknown_job_changes_nothing() {
    let mut tracker = BuildTracker::new();
    tracker.complete_build("ghost", "x".to_string(), "p".to_string(), true);
    assert!(tracker.get_build("ghost").is_none());
}

#[test]
fn registering_again_restarts_the_job() {
    let mut tracker = BuildTracker::new();
    tracker.start_build("job".to_string(), "p".to_string());
    tracker.complete_build("job", "".to_string(), "p".to_string(), false);
    assert_eq!(tracker.get_build("job").unwrap().status, BuildStatus::Failed);
    tracker.start_build("job".to_string(), "p2".to_string());
    let info = tracker.get_build("job").unwrap();
    assert_eq!(info.status, BuildStatus::Building);
    assert_eq!(info.program_name, "p2");
    assert!(info.stderr.is_none());
}
