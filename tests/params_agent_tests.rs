use alls_recorder::agent::{
    handle_command, received_message, spawn_response, AgentClient, AgentCommand, AgentError,
    AgentResponse, AgentServer, MAX_MESSAGE,
};
use alls_recorder::params::{
    build_start_params, build_start_params_now, default_recording_name, ParamError,
    SystemRecordConfig, UserConfig,
};
use alls_recorder::password::{validate_admin_password, validate_password, PasswordError};
use alls_recorder::payloads::{DownloadTokenTtlConfig, StartRecordingPayload};

fn defaults() -> SystemRecordConfig {
    SystemRecordConfig::from_stored(None, None, None, None)
}

fn no_user() -> UserConfig {
    UserConfig {
        max_bitrate: None,
        max_fps: None,
        resolution: None,
        monitor_id: None,
        desktop_audio: None,
        mic_audio: None,
        rtmp_url: None,
        rtmp_key: None,
    }
}

fn strs(v: &[&str]) -> Vec<String> {
    v.iter().map(|s| s.to_string()).collect()
}

#[test]
fn stored_limits_and_defaults() {
    let d = defaults();
    assert_eq!(d.max_bitrate, 4000);
    assert_eq!(d.max_fps, 30);
    assert_eq!(d.max_res, "1920x1080");
    assert_eq!(d.video_encoder, "x264");
    let s = SystemRecordConfig::from_stored(Some(8000), Some(60), Some("4k".to_string()), Some("nvenc".to_string()));
    assert_eq!((s.max_bitrate, s.max_fps), (8000, 60));
    let t = SystemRecordConfig::from_stored(Some(4294967296 + 5), None, None, None);
    assert_eq!(t.max_bitrate, 5);
}

#[test]
fn default_recording_parameters() {
    let p = build_start_params(&defaults(), &None, "bob", "record", None, &None, &Some("/opt/cap".to_string()), 5).unwrap();
    assert_eq!(
        p.args,
        strs(&["--bitrate", "4000", "--fps", "30", "--width", "1920", "--height", "1080", "--encoder", "x264", "--output", "bob_5.mp4"])
    );
    assert_eq!(p.filename, Some("bob_5.mp4".to_string()));
    assert_eq!(p.cli_path, "/opt/cap");
}

#[test]
fn recording_into_global_directory() {
    let p = build_start_params(&defaults(), &None, "bob", "record", Some("clip.mp4".to_string()), &Some("/srv/rec".to_string()), &None, 5).unwrap();
    assert_eq!(p.args.last().unwrap(), "/srv/rec/clip.mp4");
    assert_eq!(p.filename, Some("clip.mp4".to_string()));
    assert_eq!(p.cli_path, "");
}

#[test]
fn user_settings_override_and_clamp() {
    let user = UserConfig {
        max_bitrate: Some(6000),
        max_fps: Some(120),
        resolution: Some("4k".to_string()),
        desktop_audio: Some("spk".to_string()),
        mic_audio: Some("".to_string()),
        ..no_user()
    };
    let p = build_start_params(&defaults(), &Some(user), "bob", "record", Some("x.mp4".to_string()), &None, &None, 0).unwrap();
    assert_eq!(
        p.args,
        strs(&["--bitrate", "6000", "--fps", "30", "--width", "1920", "--height", "1080", "--encoder", "x264", "--desktop-audio", "spk", "--output", "x.mp4"])
    );
}

#[test]
fn lower_user_fps_is_kept() {
    let user = UserConfig { max_fps: Some(24), ..no_user() };
    let p = build_start_params(&defaults(), &Some(user), "bob", "record", None, &None, &None, 0).unwrap();
    assert_eq!(p.args[3], "24");
}

#[test]
fn streaming_parameters() {
    let user = UserConfig {
        rtmp_url: Some("rtmp://live".to_string()),
        rtmp_key: Some("k1".to_string()),
        mic_audio: Some("mic".to_string()),
        ..no_user()
    };
    let p = build_start_params(&defaults(), &Some(user), "bob", "stream", None, &None, &None, 0).unwrap();
    assert_eq!(
        p.args,
        strs(&["--bitrate", "4000", "--fps", "30", "--width", "1920", "--height", "1080", "--encoder", "x264", "--rtmp", "rtmp://live", "--key", "k1", "--mic-audio", "mic"])
    );
    assert_eq!(p.filename, None);
}

#[test]
fn streaming_needs_url() {
    let r = build_start_params(&defaults(), &None, "bob", "stream", None, &None, &None, 0);
    assert_eq!(r, Err(ParamError::RtmpUrlRequired));
}

#[test]
fn unknown_mode_is_refused() {
    let r = build_start_params(&defaults(), &None, "bob", "broadcast", None, &None, &None, 0);
    assert_eq!(r, Err(ParamError::InvalidMode));
}

#[test]
fn parameters_stamped_now() {
    let p = build_start_params_now(&defaults(), &None, "eve", "record", None, &None, &None).unwrap();
    let name = p.filename.unwrap();
    assert!(name.starts_with("eve_"));
    assert!(name.ends_with(".mp4"));
    assert!(name.len() > "eve_.mp4".len());
}

#[test]
fn recording_names() {
    assert_eq!(default_recording_name("bob", 1700000000), "bob_1700000000.mp4");
    assert_eq!(default_recording_name("", -1), "_-1.mp4");
}

#[test]
fn agent_start_reports_pid() {
    let cmd = AgentClient::start_command("/opt/cap".to_string(), strs(&["--fps", "30"]));
    let r = handle_command(cmd, |path, args| {
        assert_eq!(path, "/opt/cap");
        assert_eq!(args.len(), 2);
        Ok(Some(4242))
    });
    assert_eq!(r, AgentResponse { success: true, message: "Process started successfully".to_string(), pid: Some(4242) });
    assert_eq!(AgentClient::read_start_response(r), Ok(4242));
}

#[test]
fn agent_spawn_failure() {
    let r = spawn_response(Err("no such file".to_string()));
    assert!(!r.success);
    assert_eq!(r.message, "Failed to start process: no such file");
    assert_eq!(
        AgentClient::read_start_response(r),
        Err(AgentError::Refused("Failed to start process: no such file".to_string()))
    );
}

#[test]
fn agent_other_commands() {
    let stop = AgentCommand { command: "stop".to_string(), cli_path: String::new(), args: vec![] };
    let r = handle_command(stop, |_, _| panic!("nothing is spawned"));
    assert_eq!(r.message, "Unknown command: stop");
    assert!(!r.success);
    let other = AgentCommand { command: "reboot".to_string(), cli_path: String::new(), args: vec![] };
    let r = handle_command(other, |_, _| panic!("nothing is spawned"));
    assert_eq!(r.message, "Unknown command: reboot");
    assert_eq!(r.pid, None);
}

#[test]
fn agent_success_without_pid() {
    let r = AgentResponse { success: true, message: String::new(), pid: None };
    assert_eq!(AgentClient::read_start_response(r), Err(AgentError::NoPid));
}

#[test]
fn agent_endpoints() {
    assert_eq!(AgentServer::new(9000).listen_address(), "127.0.0.1:9000");
    assert_eq!(AgentClient::new("127.0.0.1:1".to_string()).agent_addr, "127.0.0.1:1");
    let buf = vec![1u8, 2, 3, 4];
    assert_eq!(received_message(&buf, 0), None);
    assert_eq!(received_message(&buf, 2), Some(vec![1u8, 2]));
    assert_eq!(MAX_MESSAGE, 8192);
}

#[test]
fn password_policy() {
    assert_eq!(validate_password("abc1"), Err(PasswordError::TooShort));
    assert_eq!(validate_admin_password("abc1"), Err(PasswordError::AdminTooShort));
    assert_eq!(validate_password(&"a1".repeat(65)), Err(PasswordError::TooLong));
    assert_eq!(validate_password("abcdefgh"), Err(PasswordError::NoDigit));
    assert_eq!(validate_password("12345678"), Err(PasswordError::NoLetter));
    assert_eq!(validate_password("abcdefg1"), Ok(()));
    assert_eq!(validate_admin_password(&"a1".repeat(64)), Ok(()));
    assert_eq!(validate_password("éééé1"), Ok(()));
}

#[test]
fn payload_defaults() {
    let p = StartRecordingPayload { filename: None, mode: None };
    assert_eq!(p.mode_or_record(), "record");
    let p = StartRecordingPayload { filename: None, mode: Some("stream".to_string()) };
    assert_eq!(p.mode_or_record(), "stream");
    assert_eq!(DownloadTokenTtlConfig { minutes: 0 }.effective_minutes(), 1);
    assert_eq!(DownloadTokenTtlConfig { minutes: 30 }.effective_minutes(), 30);
}
