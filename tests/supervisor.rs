use backend_supervisor::identity::{classify_record, render_identity, IdentityRecord};
use backend_supervisor::location::resolve_location;
use backend_supervisor::supervisor::{
    assess_instance, stop_issues, Assessment, StartError, StartStep, StopIssue, StopPlan, Supervisor,
    LISTEN_PORT,
};

#[test]
fn new_supervisor_owns_nothing() {
    let s = Supervisor::new();
    assert!(!s.is_running());
    assert_eq!(s.child_pid(), None);
    assert_eq!(LISTEN_PORT, 8000);
}

#[test]
fn nothing_running_without_record_and_free_port() {
    let a = assess_instance(false, IdentityRecord::Missing, false);
    assert_eq!(a, Assessment { running: false, remove_record: false });
}

#[test]
fn taken_port_means_running() {
    let a = assess_instance(true, IdentityRecord::Missing, false);
    assert_eq!(a, Assessment { running: true, remove_record: false });
}

#[test]
fn live_recorded_process_means_running() {
    let a = assess_instance(false, IdentityRecord::Pid(4321), true);
    assert_eq!(a, Assessment { running: true, remove_record: false });
}

#[test]
fn stale_record_is_not_running_and_is_removed() {
    let a = assess_instance(false, IdentityRecord::Pid(4321), false);
    assert_eq!(a, Assessment { running: false, remove_record: true });
}

#[test]
fn stale_record_is_removed_even_when_port_is_taken() {
    let a = assess_instance(true, IdentityRecord::Pid(4321), false);
    assert_eq!(a, Assessment { running: true, remove_record: true });
}

#[test]
fn corrupt_record_is_treated_as_absent_and_removed() {
    let record = classify_record(Some(b"not_a_number".as_slice()));
    assert_eq!(record, IdentityRecord::Malformed);
    let a = assess_instance(false, record, true);
    assert_eq!(a, Assessment { running: false, remove_record: true });
}

#[test]
fn start_spawns_first_candidate_and_records_pid() {
    let mut s = Supervisor::new();
    let a = assess_instance(false, classify_record(None), false);
    assert!(!a.running);
    assert!(!a.remove_record);
    let found = resolve_location(&[true, false, true, false, false]);
    assert_eq!(s.plan_start(a.running, found), Ok(StartStep::Spawn { candidate: 0 }));
    assert_eq!(s.finish_start(Some(5150)), Ok(5150));
    assert!(s.is_running());
    assert_eq!(s.child_pid(), Some(5150));
    let text = render_identity(5150);
    assert!(text.iter().all(|b| b.is_ascii_digit()));
    assert_eq!(classify_record(Some(text.as_slice())), IdentityRecord::Pid(5150));
}

#[test]
fn start_is_a_no_op_when_an_instance_runs() {
    let s = Supervisor::new();
    let a = assess_instance(true, IdentityRecord::Missing, false);
    assert_eq!(s.plan_start(a.running, Some(0)), Ok(StartStep::AlreadyRunning));
    let a = assess_instance(false, IdentityRecord::Pid(77), true);
    assert_eq!(s.plan_start(a.running, Some(3)), Ok(StartStep::AlreadyRunning));
    assert!(!s.is_running());
}

#[test]
fn start_is_a_no_op_when_a_child_is_owned() {
    let mut s = Supervisor::new();
    assert_eq!(s.finish_start(Some(900)), Ok(900));
    assert_eq!(s.plan_start(false, Some(0)), Ok(StartStep::AlreadyRunning));
    assert_eq!(s.child_pid(), Some(900));
}

#[test]
fn missing_backend_is_reported_and_state_stays_idle() {
    let s = Supervisor::new();
    let found = resolve_location(&[false, false, false, false, false]);
    assert_eq!(s.plan_start(false, found), Err(StartError::BackendMissing));
    assert!(!s.is_running());
}

#[test]
fn failed_spawn_is_reported_and_state_stays_idle() {
    let mut s = Supervisor::new();
    assert_eq!(s.finish_start(None), Err(StartError::SpawnFailed));
    assert!(!s.is_running());
}

#[test]
fn stop_terminates_child_and_removes_record() {
    let mut s = Supervisor::new();
    s.finish_start(Some(300)).unwrap();
    let plan = s.begin_stop(IdentityRecord::Pid(300), true);
    assert_eq!(plan, StopPlan { child: Some(300), recorded: None, remove_record: true });
    assert!(!s.is_running());
}

#[test]
fn stop_also_terminates_process_from_earlier_run() {
    let mut s = Supervisor::new();
    s.finish_start(Some(300)).unwrap();
    let plan = s.begin_stop(IdentityRecord::Pid(120), true);
    assert_eq!(plan, StopPlan { child: Some(300), recorded: Some(120), remove_record: true });
}

#[test]
fn stop_leaves_dead_recorded_process_alone() {
    let mut s = Supervisor::new();
    let plan = s.begin_stop(IdentityRecord::Pid(120), false);
    assert_eq!(plan, StopPlan { child: None, recorded: None, remove_record: true });
}

#[test]
fn stop_removes_malformed_record() {
    let mut s = Supervisor::new();
    let plan = s.begin_stop(IdentityRecord::Malformed, false);
    assert_eq!(plan, StopPlan { child: None, recorded: None, remove_record: true });
}

#[test]
fn stopping_twice_is_harmless() {
    let mut s = Supervisor::new();
    s.finish_start(Some(2024)).unwrap();
    let first = s.begin_stop(IdentityRecord::Pid(2024), true);
    assert_eq!(first.child, Some(2024));
    assert!(first.remove_record);
    assert!(!s.is_running());
    let second = s.begin_stop(IdentityRecord::Missing, false);
    assert_eq!(second, StopPlan { child: None, recorded: None, remove_record: false });
    assert!(!s.is_running());
}

#[test]
fn stop_issues_are_listed_in_order() {
    assert_eq!(stop_issues(false, false), vec![]);
    assert_eq!(stop_issues(true, false), vec![StopIssue::TerminationFailed]);
    assert_eq!(stop_issues(false, true), vec![StopIssue::PortStillBound]);
    assert_eq!(
        stop_issues(true, true),
        vec![StopIssue::TerminationFailed, StopIssue::PortStillBound]
    );
}
