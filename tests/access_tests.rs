use alls_recorder::access::{is_admin, may_access_file};
use alls_recorder::params::{FpsAboveLimit, UserConfig};
use alls_recorder::recorder::{CliProbe, RecorderError, RecorderManager, TaskKind};

#[test]
fn admins_reach_every_file() {
    assert!(is_admin("admin"));
    assert!(!is_admin("Admin"));
    assert!(!is_admin("user"));
    assert!(may_access_file("admin", Some(2), 1));
    assert!(may_access_file("admin", None, 1));
}

#[test]
fn users_reach_only_their_files() {
    assert!(may_access_file("user", Some(1), 1));
    assert!(!may_access_file("user", Some(2), 1));
    assert!(!may_access_file("user", None, 1));
}

#[test]
fn user_fps_limit() {
    let mut c = UserConfig {
        max_bitrate: None,
        max_fps: Some(60),
        resolution: None,
        monitor_id: None,
        desktop_audio: None,
        mic_audio: None,
        rtmp_url: None,
        rtmp_key: None,
    };
    assert_eq!(c.check_limits(30), Err(FpsAboveLimit { limit: 30 }));
    assert_eq!(c.check_limits(60), Ok(()));
    c.max_fps = None;
    assert_eq!(c.check_limits(30), Ok(()));
}

#[test]
fn start_precheck_and_status() {
    let mut m: RecorderManager<u8> = RecorderManager::new();
    assert_eq!(m.check_start(1), Ok(()));
    assert_eq!(m.status_label(1), "idle");
    let probe = CliProbe::Found { is_file: true, mode_bits: Some(0o700) };
    m.start_recording(1, TaskKind::Stream, "/bin/cap", &probe, || Ok(0u8)).unwrap();
    assert_eq!(m.check_start(1), Err(RecorderError::AlreadyActiveBySelf));
    assert_eq!(m.check_start(2), Err(RecorderError::SlotOccupied));
    assert_eq!(m.status_label(1), "stream");
    assert_eq!(m.status_label(2), "idle");
}
