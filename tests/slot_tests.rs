use alls_recorder::negotiation::{NegotiationError, RequestStatus, Response, StopNegotiation, StopRequest};
use alls_recorder::recorder::{
    cli_target, is_cli_config_error, validate_cli_path, CliProbe, CliProblem, RecorderError,
    RecorderManager, TaskKind,
};

fn ready() -> CliProbe {
    CliProbe::Found { is_file: true, mode_bits: Some(0o755) }
}

fn start(m: &mut RecorderManager<u32>, user: u128, task: TaskKind, pid: u32) -> Result<(), RecorderError> {
    m.start_recording(user, task, "/opt/cap", &ready(), move || Ok(pid))
}

#[test]
fn first_start_takes_the_slot() {
    let mut m: RecorderManager<u32> = RecorderManager::new();
    assert!(!m.has_any_recording());
    assert_eq!(start(&mut m, 1, TaskKind::Record, 100), Ok(()));
    assert!(m.is_recording(1));
    assert!(m.has_any_recording());
    assert_eq!(m.get_task_type(1), Some(TaskKind::Record));
    assert_eq!(m.get_task_type(2), None);
    assert_eq!(m.get_active_users(), vec![1u128]);
}

#[test]
fn competing_starts_admit_one_holder() {
    let mut m: RecorderManager<u32> = RecorderManager::new();
    let results: Vec<Result<(), RecorderError>> = (1u128..=5)
        .map(|u| start(&mut m, u, TaskKind::Stream, u as u32))
        .collect();
    assert_eq!(results.iter().filter(|r| r.is_ok()).count(), 1);
    assert_eq!(results[0], Ok(()));
    for r in &results[1..] {
        assert_eq!(*r, Err(RecorderError::SlotOccupied));
    }
    assert_eq!(start(&mut m, 1, TaskKind::Record, 9), Err(RecorderError::AlreadyActiveBySelf));
    assert_eq!(m.get_active_users(), vec![1u128]);
    assert_eq!(m.get_task_type(1), Some(TaskKind::Stream));
}

#[test]
fn refused_start_never_spawns() {
    let mut m: RecorderManager<u32> = RecorderManager::new();
    start(&mut m, 1, TaskKind::Record, 1).unwrap();
    let mut spawned = false;
    let r = m.start_recording(2, TaskKind::Record, "/opt/cap", &ready(), || {
        spawned = true;
        Ok(2)
    });
    assert_eq!(r, Err(RecorderError::SlotOccupied));
    assert!(!spawned);
}

#[test]
fn bad_binary_leaves_slot_empty() {
    let mut m: RecorderManager<u32> = RecorderManager::new();
    let probe = CliProbe::Found { is_file: true, mode_bits: Some(0o644) };
    let r = m.start_recording(1, TaskKind::Record, "/opt/cap", &probe, || Ok(1));
    assert_eq!(r, Err(RecorderError::InvalidCliConfig(CliProblem::NotExecutable)));
    assert!(is_cli_config_error(&r.unwrap_err()));
    assert!(!m.has_any_recording());
}

#[test]
fn failed_spawn_leaves_slot_empty() {
    let mut m: RecorderManager<u32> = RecorderManager::new();
    let r = m.start_recording(1, TaskKind::Record, "/opt/cap", &ready(), || Err("denied".to_string()));
    assert_eq!(r, Err(RecorderError::SpawnFailed("denied".to_string())));
    assert!(!is_cli_config_error(&r.unwrap_err()));
    assert!(!m.has_any_recording());
}

#[test]
fn stop_empties_the_slot() {
    let mut m: RecorderManager<u32> = RecorderManager::new();
    start(&mut m, 1, TaskKind::Record, 77).unwrap();
    assert_eq!(m.stop_recording(2), Err(RecorderError::NoActiveProcess));
    assert!(m.is_recording(1));
    assert_eq!(m.stop_recording(1), Ok(77));
    assert!(!m.is_recording(1));
    assert!(!m.has_any_recording());
    assert!(m.get_active_users().is_empty());
    assert_eq!(m.stop_recording(1), Err(RecorderError::NoActiveProcess));
    assert_eq!(start(&mut m, 2, TaskKind::Record, 78), Ok(()));
}

#[test]
fn cli_path_checks() {
    assert_eq!(validate_cli_path("   ", &ready()), Err(CliProblem::NotConfigured));
    assert_eq!(
        validate_cli_path("/x", &CliProbe::Missing("gone".to_string())),
        Err(CliProblem::Unreadable("gone".to_string()))
    );
    assert_eq!(
        validate_cli_path("/x", &CliProbe::Found { is_file: false, mode_bits: Some(0o755) }),
        Err(CliProblem::NotAFile)
    );
    assert_eq!(
        validate_cli_path("/x", &CliProbe::Found { is_file: true, mode_bits: Some(0o600) }),
        Err(CliProblem::NotExecutable)
    );
    assert_eq!(validate_cli_path("/x", &CliProbe::Found { is_file: true, mode_bits: Some(0o100) }), Ok(()));
    assert_eq!(validate_cli_path("/x", &CliProbe::Found { is_file: true, mode_bits: None }), Ok(()));
    assert_eq!(cli_target("  /opt/cap "), Some("/opt/cap"));
    assert_eq!(cli_target(" \t"), None);
}

#[test]
fn task_kind_labels() {
    assert_eq!(TaskKind::from_label("record"), Some(TaskKind::Record));
    assert_eq!(TaskKind::from_label("stream"), Some(TaskKind::Stream));
    assert_eq!(TaskKind::from_label("Record"), None);
    assert_eq!(TaskKind::Record.label(), "record");
    assert_eq!(TaskKind::Stream.label(), "stream");
}

fn holder_b() -> (RecorderManager<u32>, StopNegotiation) {
    let mut m: RecorderManager<u32> = RecorderManager::new();
    start(&mut m, 2, TaskKind::Stream, 20).unwrap();
    (m, StopNegotiation::new())
}

#[test]
fn request_stop_once_then_pending() {
    let (m, mut n) = holder_b();
    assert_eq!(n.request_stop(&m, 1, "alice".to_string(), 2), Ok(()));
    assert_eq!(n.request_stop(&m, 1, "alice".to_string(), 2), Err(NegotiationError::RequestPending));
    assert_eq!(n.request_stop(&m, 3, "carol".to_string(), 2), Err(NegotiationError::RequestPending));
}

#[test]
fn request_stop_refusals() {
    let (m, mut n) = holder_b();
    assert_eq!(n.request_stop(&m, 2, "bob".to_string(), 2), Err(NegotiationError::SelfRequest));
    assert_eq!(n.request_stop(&m, 1, "alice".to_string(), 3), Err(NegotiationError::TargetNotActive));
    assert_eq!(n.request_stop(&m, 2, "bob".to_string(), 1), Err(NegotiationError::TargetNotActive));
}

#[test]
fn request_to_idle_user_refused() {
    let m: RecorderManager<u32> = RecorderManager::new();
    let mut n = StopNegotiation::new();
    assert_eq!(n.request_stop(&m, 1, "alice".to_string(), 2), Err(NegotiationError::TargetNotActive));
}

#[test]
fn notification_shows_pending_request() {
    let (mut m, mut n) = holder_b();
    assert_eq!(n.poll_notification(2), None);
    n.request_stop(&m, 1, "alice".to_string(), 2).unwrap();
    let seen = n.poll_notification(2).unwrap();
    assert_eq!(seen, StopRequest::new(1, "alice".to_string()));
    assert_eq!(n.poll_notification(2), Some(seen));
    assert_eq!(n.poll_notification(1), None);
    match n.respond(&mut m, 2, 1, false) {
        Ok(Response::Denied) => {}
        _ => panic!("expected a denial"),
    }
    assert_eq!(n.poll_notification(2), None);
}

#[test]
fn denial_is_seen_exactly_once() {
    let (mut m, mut n) = holder_b();
    n.request_stop(&m, 1, "alice".to_string(), 2).unwrap();
    let pending = n.poll_status(1, 2).unwrap();
    assert_eq!(pending.status, RequestStatus::Pending);
    assert_eq!(n.poll_status(3, 2), None);
    assert!(matches!(n.respond(&mut m, 2, 1, false), Ok(Response::Denied)));
    assert!(m.is_recording(2));
    let denied = n.poll_status(1, 2).unwrap();
    assert_eq!(denied.status, RequestStatus::Denied);
    assert_eq!(denied.requester_name, "alice");
    assert_eq!(n.poll_status(1, 2), None);
}

#[test]
fn respond_refusals() {
    let (mut m, mut n) = holder_b();
    assert!(matches!(n.respond(&mut m, 2, 1, true), Err(NegotiationError::NoActiveRequest)));
    n.request_stop(&m, 1, "alice".to_string(), 2).unwrap();
    assert!(matches!(n.respond(&mut m, 2, 3, true), Err(NegotiationError::RequesterMismatch)));
    assert!(m.is_recording(2));
}

#[test]
fn respond_needs_target_recording() {
    let (mut m, mut n) = holder_b();
    n.request_stop(&m, 1, "alice".to_string(), 2).unwrap();
    assert_eq!(m.stop_recording(2), Ok(20));
    assert!(matches!(n.respond(&mut m, 2, 1, true), Err(NegotiationError::TargetNotActive)));
    assert_eq!(n.poll_status(1, 2).unwrap().status, RequestStatus::Pending);
}

#[test]
fn accepted_handoff_moves_slot_to_requester() {
    let (mut m, mut n) = holder_b();
    n.request_stop(&m, 1, "alice".to_string(), 2).unwrap();
    match n.respond(&mut m, 2, 1, true) {
        Ok(Response::Stopped(pid)) => assert_eq!(pid, 20),
        _ => panic!("expected the holder to be stopped"),
    }
    assert!(!m.has_any_recording());
    assert_eq!(n.poll_status(1, 2).unwrap().status, RequestStatus::Pending);
    let r = n.complete_handoff(&mut m, 2, 1, "/opt/cap", &ready(), || Ok(30));
    assert_eq!(r, Ok(()));
    assert!(m.is_recording(1));
    assert!(!m.is_recording(2));
    assert_eq!(m.get_task_type(1), Some(TaskKind::Record));
    let accepted = n.poll_status(1, 2).unwrap();
    assert_eq!(accepted.status, RequestStatus::Accepted);
    assert_eq!(n.poll_status(1, 2), None);
}

#[test]
fn failed_handoff_leaves_request_in_place() {
    let (mut m, mut n) = holder_b();
    n.request_stop(&m, 1, "alice".to_string(), 2).unwrap();
    assert!(matches!(n.respond(&mut m, 2, 1, true), Ok(Response::Stopped(20))));
    let r = n.complete_handoff(&mut m, 2, 1, "", &ready(), || Ok(30));
    assert_eq!(
        r,
        Err(NegotiationError::Recorder(RecorderError::InvalidCliConfig(CliProblem::NotConfigured)))
    );
    assert!(!m.has_any_recording());
    assert_eq!(n.poll_notification(2).unwrap().requester_id, 1);
}

#[test]
fn handoff_refused_while_slot_is_held() {
    let (mut m, mut n) = holder_b();
    n.request_stop(&m, 1, "alice".to_string(), 2).unwrap();
    let mut spawned = false;
    let r = n.complete_handoff(&mut m, 2, 1, "/opt/cap", &ready(), || {
        spawned = true;
        Ok(30)
    });
    assert_eq!(r, Err(NegotiationError::Recorder(RecorderError::SlotOccupied)));
    assert!(!spawned);
    assert!(m.is_recording(2));
    assert_eq!(n.poll_notification(2).unwrap().requester_id, 1);
}
