//! The command line of the capture binary, assembled from the system-wide
//! limits, the user's own settings and the requested mode.
use vstd::prelude::*;
use crate::text::{decimal_of, decimal_text};
use crate::resolution::{clamped_dims, clamp_resolution};
use crate::recorder::{TaskKind, kind_named};

verus! {

/// The system-wide capture limits.
#[derive(Clone, Debug, PartialEq, Eq)]
pub struct SystemRecordConfig {
    pub max_bitrate: i32,
    pub max_fps: i32,
    pub max_res: String,
    pub video_encoder: String,
}

/// A user's own capture settings; each one unset falls back to the system's.
#[derive(Clone, Debug, PartialEq, Eq)]
pub struct UserConfig {
    pub max_bitrate: Option<i32>,
    pub max_fps: Option<i32>,
    pub resolution: Option<String>,
    pub monitor_id: Option<String>,
    pub desktop_audio: Option<String>,
    pub mic_audio: Option<String>,
    pub rtmp_url: Option<String>,
    pub rtmp_key: Option<String>,
}

/// What starting a capture needs: the arguments of the capture binary, the
/// recording's file name (for a recording), and the binary's path.
#[derive(Clone, Debug, PartialEq, Eq)]
pub struct StartParams {
    pub args: Vec<String>,
    pub filename: Option<String>,
    pub cli_path: String,
}

/// Why no start parameters could be built.
#[derive(Clone, Copy, Debug, PartialEq, Eq, Structural)]
pub enum ParamError {
    /// Streaming needs an RTMP URL and the user has none.
    RtmpUrlRequired,
    /// The mode is neither `record` nor `stream`.
    InvalidMode,
}

/// The texts of a list of strings.
pub open spec fn texts(v: Seq<String>) -> Seq<Seq<char>> {
    v.map_values(|s: String| s@)
}

/// The text of an optional setting; empty when unset.
pub open spec fn or_empty(o: Option<String>) -> Seq<char> {
    match o {
        Some(s) => s@,
        None => Seq::<char>::empty(),
    }
}

/// The bitrate to use: the user's, else the system's.
pub open spec fn chosen_bitrate(sys: SystemRecordConfig, user: Option<UserConfig>) -> i32 {
    match user {
        Some(c) => match c.max_bitrate {
            Some(b) => b,
            None => sys.max_bitrate,
        },
        None => sys.max_bitrate,
    }
}

/// The frame rate to use: the user's, else the system's, never above the
/// system's.
pub open spec fn chosen_fps(sys: SystemRecordConfig, user: Option<UserConfig>) -> i32 {
    let wanted = match user {
        Some(c) => match c.max_fps {
            Some(f) => f,
            None => sys.max_fps,
        },
        None => sys.max_fps,
    };
    if wanted < sys.max_fps {
        wanted
    } else {
        sys.max_fps
    }
}

/// The requested resolution: the user's, else the system's ceiling.
pub open spec fn chosen_resolution(sys: SystemRecordConfig, user: Option<UserConfig>) -> Seq<char> {
    match user {
        Some(c) => match c.resolution {
            Some(r) => r@,
            None => sys.max_res@,
        },
        None => sys.max_res@,
    }
}

/// One of the user's optional text settings, empty when there is no user.
pub open spec fn user_text(user: Option<UserConfig>, pick: spec_fn(UserConfig) -> Option<String>) -> Seq<char> {
    match user {
        Some(c) => or_empty(pick(c)),
        None => Seq::<char>::empty(),
    }
}

/// The user's RTMP URL.
pub open spec fn rtmp_url_of(user: Option<UserConfig>) -> Seq<char> {
    user_text(user, |c: UserConfig| c.rtmp_url)
}

/// `[name, value]`, or nothing when `value` is empty.
pub open spec fn optional_flag(name: Seq<char>, value: Seq<char>) -> Seq<Seq<char>> {
    if value.len() == 0 {
        Seq::<Seq<char>>::empty()
    } else {
        seq![name, value]
    }
}

/// The arguments common to both modes: bitrate, frame rate, clamped size
/// and encoder.
pub open spec fn base_args(sys: SystemRecordConfig, user: Option<UserConfig>) -> Seq<Seq<char>> {
    let (w, h) = clamped_dims(chosen_resolution(sys, user), sys.max_res@);
    seq![
        "--bitrate"@,
        decimal_of(chosen_bitrate(sys, user) as int),
        "--fps"@,
        decimal_of(chosen_fps(sys, user) as int),
        "--width"@,
        decimal_of(w as int),
        "--height"@,
        decimal_of(h as int),
        "--encoder"@,
        sys.video_encoder@,
    ]
}

/// The arguments of a stream: its URL and, if set, its key.
pub open spec fn stream_args(user: Option<UserConfig>) -> Seq<Seq<char>> {
    seq!["--rtmp"@, rtmp_url_of(user)] + optional_flag("--key"@, user_text(user, |c: UserConfig| c.rtmp_key))
}

/// The audio device arguments, each only when set.
pub open spec fn audio_args(user: Option<UserConfig>) -> Seq<Seq<char>> {
    optional_flag("--desktop-audio"@, user_text(user, |c: UserConfig| c.desktop_audio)) + optional_flag(
        "--mic-audio"@,
        user_text(user, |c: UserConfig| c.mic_audio),
    )
}

/// The full argument list of a capture of `kind`; a recording writes to
/// `output`.
pub open spec fn capture_args(
    sys: SystemRecordConfig,
    user: Option<UserConfig>,
    kind: TaskKind,
    output: Seq<char>,
) -> Seq<Seq<char>> {
    match kind {
        TaskKind::Stream => base_args(sys, user) + stream_args(user) + audio_args(user),
        TaskKind::Record => base_args(sys, user) + audio_args(user) + seq!["--output"@, output],
    }
}

/// The default name of a recording by `username` started at `now`:
/// `<username>_<now>.mp4`.
pub open spec fn default_file_name(username: Seq<char>, now: i64) -> Seq<char> {
    username + "_"@ + decimal_of(now as int) + ".mp4"@
}

/// A user's settings break a system limit: the frame rate asked for is
/// above the system's, which is given.
#[derive(Clone, Copy, Debug, PartialEq, Eq, Structural)]
pub struct FpsAboveLimit {
    pub limit: i32,
}

impl UserConfig {
    /// Checks a user's settings against the system's frame rate limit.
    pub fn check_limits(&self, sys_max_fps: i32) -> (r: Result<(), FpsAboveLimit>)
        ensures
            r == (match self.max_fps {
                Some(f) => if f > sys_max_fps {
                    Err(FpsAboveLimit { limit: sys_max_fps })
                } else {
                    Ok(())
                },
                None => Ok(()),
            }),
    {
        match self.max_fps {
            Some(f) => {
                if f > sys_max_fps {
                    Err(FpsAboveLimit { limit: sys_max_fps })
                } else {
                    Ok(())
                }
            },
            None => Ok(()),
        }
    }
}

impl SystemRecordConfig {
    /// The limits from their stored values: bitrate 4000, 30 frames per
    /// second, ceiling `1920x1080` and encoder `x264` where unset. Stored
    /// numbers keep their low 32 bits.
    pub fn from_stored(
        max_bitrate: Option<i64>,
        max_fps: Option<i64>,
        max_res: Option<String>,
        video_encoder: Option<String>,
    ) -> (r: Self)
        ensures
            r.max_bitrate == (match max_bitrate {
                Some(b) => b as i32,
                None => 4000i32,
            }),
            r.max_fps == (match max_fps {
                Some(f) => f as i32,
                None => 30i32,
            }),
            r.max_res@ == (match max_res {
                Some(s) => s@,
                None => "1920x1080"@,
            }),
            r.video_encoder@ == (match video_encoder {
                Some(s) => s@,
                None => "x264"@,
            }),
    {
        let bitrate: i64 = match max_bitrate {
            Some(b) => b,
            None => 4000,
        };
        let fps: i64 = match max_fps {
            Some(f) => f,
            None => 30,
        };
        SystemRecordConfig {
            max_bitrate: bitrate as i32,
            max_fps: fps as i32,
            max_res: match max_res {
                Some(s) => s,
                None => String::from_str("1920x1080"),
            },
            video_encoder: match video_encoder {
                Some(s) => s,
                None => String::from_str("x264"),
            },
        }
    }
}

fn push_text(args: &mut Vec<String>, text: &str)
    ensures
        texts(final(args)@) == texts(old(args)@).push(text@),
{
    args.push(String::from_str(text));
    proof {
        assert(texts(final(args)@) =~= texts(old(args)@).push(text@));
    }
}

fn push_string(args: &mut Vec<String>, text: String)
    ensures
        texts(final(args)@) == texts(old(args)@).push(text@),
{
    let ghost v = text@;
    args.push(text);
    proof {
        assert(texts(final(args)@) =~= texts(old(args)@).push(v));
    }
}

fn push_optional(args: &mut Vec<String>, name: &str, value: &Option<String>)
    ensures
        texts(final(args)@) == texts(old(args)@) + optional_flag(name@, or_empty(*value)),
{
    match value {
        Some(v) => {
            if v.as_str().unicode_len() > 0 {
                push_text(args, name);
                push_string(args, v.clone());
                proof {
                    assert(texts(final(args)@) =~= texts(old(args)@) + optional_flag(name@, or_empty(*value)));
                }
                return;
            }
        },
        None => {},
    }
    proof {
        assert(texts(final(args)@) =~= texts(old(args)@) + optional_flag(name@, or_empty(*value)));
    }
}

fn setting_or_empty(value: &Option<String>) -> (r: String)
    ensures
        r@ == or_empty(*value),
{
    match value {
        Some(v) => v.clone(),
        None => String::new(),
    }
}

/// The default name of a recording by `username` started at `now`.
pub fn default_recording_name(username: &str, now: i64) -> (r: String)
    ensures
        r@ == default_file_name(username@, now),
{
    let mut name = String::from_str(username);
    name.append("_");
    let stamp = decimal_text(now);
    name.append(stamp.as_str());
    name.append(".mp4");
    proof {
        assert(name@ =~= default_file_name(username@, now));
    }
    name
}

/// Relies on `std::path::Path::join` and `to_string_lossy`: `name` placed in
/// the directory `base` with the platform's separator. Nothing is promised
/// of the text, which differs between platforms.
#[verifier::external_body]
fn join_path(base: &str, name: &str) -> (r: String) {
    std::path::Path::new(base).join(name).to_string_lossy().to_string()
}

/// The start parameters for `username`'s capture in `mode` (`record` or
/// `stream`). The bitrate and frame rate are the user's where set (the
/// frame rate never above the system's), the size is the user's resolution
/// clamped to the system ceiling, and the encoder is the system's. A stream
/// needs the user's RTMP URL and passes its key where set; audio devices are
/// passed where set. A recording is named `filename_override`, else
/// `<username>_<now>.mp4`, and written into `global_path` where that is set.
pub fn build_start_params(
    sys: &SystemRecordConfig,
    user: &Option<UserConfig>,
    username: &str,
    mode: &str,
    filename_override: Option<String>,
    global_path: &Option<String>,
    cli_path: &Option<String>,
    now: i64,
) -> (r: Result<StartParams, ParamError>)
    ensures
        kind_named(mode@) is None ==> r == Err::<StartParams, ParamError>(ParamError::InvalidMode),
        kind_named(mode@) == Some(TaskKind::Stream) && rtmp_url_of(*user).len() == 0 ==> r == Err::<
            StartParams,
            ParamError,
        >(ParamError::RtmpUrlRequired),
        kind_named(mode@) == Some(TaskKind::Stream) && rtmp_url_of(*user).len() > 0 ==> (r matches Ok(
            p,
        ) && {
            &&& texts(p.args@) == capture_args(*sys, *user, TaskKind::Stream, Seq::empty())
            &&& p.filename is None
            &&& p.cli_path@ == or_empty(*cli_path)
        }),
        kind_named(mode@) == Some(TaskKind::Record) ==> (r matches Ok(p) && {
            let name = match filename_override {
                Some(f) => f@,
                None => default_file_name(username@, now),
            };
            let output = texts(p.args@).last();
            &&& p.args@.len() > 0
            &&& texts(p.args@) == capture_args(*sys, *user, TaskKind::Record, output)
            &&& or_empty(*global_path).len() == 0 ==> output == name
            &&& p.filename matches Some(f) && f@ == name
            &&& p.cli_path@ == or_empty(*cli_path)
        }),
{
    let kind = match TaskKind::from_label(mode) {
        Some(k) => k,
        None => {
            return Err(ParamError::InvalidMode);
        },
    };
    let no_settings = UserConfig {
        max_bitrate: None,
        max_fps: None,
        resolution: None,
        monitor_id: None,
        desktop_audio: None,
        mic_audio: None,
        rtmp_url: None,
        rtmp_key: None,
    };
    let settings = match user {
        Some(c) => c,
        None => &no_settings,
    };
    proof {
        assert(user_text(*user, |c: UserConfig| c.rtmp_url) == or_empty(settings.rtmp_url));
        assert(user_text(*user, |c: UserConfig| c.rtmp_key) == or_empty(settings.rtmp_key));
        assert(user_text(*user, |c: UserConfig| c.desktop_audio) == or_empty(settings.desktop_audio));
        assert(user_text(*user, |c: UserConfig| c.mic_audio) == or_empty(settings.mic_audio));
    }
    let bitrate = match settings.max_bitrate {
        Some(b) => b,
        None => sys.max_bitrate,
    };
    let wanted_fps = match settings.max_fps {
        Some(f) => f,
        None => sys.max_fps,
    };
    let fps = if wanted_fps < sys.max_fps {
        wanted_fps
    } else {
        sys.max_fps
    };
    let resolution = match &settings.resolution {
        Some(r) => r.as_str(),
        None => sys.max_res.as_str(),
    };
    let (w, h) = clamp_resolution(resolution, sys.max_res.as_str());
    let mut args: Vec<String> = Vec::new();
    push_text(&mut args, "--bitrate");
    push_string(&mut args, decimal_text(bitrate as i64));
    push_text(&mut args, "--fps");
    push_string(&mut args, decimal_text(fps as i64));
    push_text(&mut args, "--width");
    push_string(&mut args, decimal_text(w as i64));
    push_text(&mut args, "--height");
    push_string(&mut args, decimal_text(h as i64));
    push_text(&mut args, "--encoder");
    push_string(&mut args, sys.video_encoder.clone());
    proof {
        assert(texts(args@) =~= base_args(*sys, *user));
    }
    let ghost base = texts(args@);
    match kind {
        TaskKind::Stream => {
            let url = setting_or_empty(&settings.rtmp_url);
            if url.as_str().unicode_len() == 0 {
                return Err(ParamError::RtmpUrlRequired);
            }
            push_text(&mut args, "--rtmp");
            push_string(&mut args, url);
            push_optional(&mut args, "--key", &settings.rtmp_key);
            proof {
                assert(texts(args@) =~= base + stream_args(*user));
            }
        },
        TaskKind::Record => {},
    }
    let ghost before_audio = texts(args@);
    push_optional(&mut args, "--desktop-audio", &settings.desktop_audio);
    push_optional(&mut args, "--mic-audio", &settings.mic_audio);
    proof {
        assert(texts(args@) =~= before_audio + audio_args(*user));
    }
    let cli = setting_or_empty(cli_path);
    match kind {
        TaskKind::Stream => {
            proof {
                assert(texts(args@) =~= capture_args(*sys, *user, TaskKind::Stream, Seq::empty()));
            }
            Ok(StartParams { args, filename: None, cli_path: cli })
        },
        TaskKind::Record => {
            let name = match filename_override {
                Some(f) => f,
                None => default_recording_name(username, now),
            };
            let base_dir = setting_or_empty(global_path);
            let output = if base_dir.as_str().unicode_len() > 0 {
                join_path(base_dir.as_str(), name.as_str())
            } else {
                name.clone()
            };
            let ghost with_audio = texts(args@);
            push_text(&mut args, "--output");
            push_string(&mut args, output);
            proof {
                assert(texts(args@) =~= with_audio + seq!["--output"@, texts(args@).last()]);
            }
            Ok(StartParams { args, filename: Some(name), cli_path: cli })
        },
    }
}

/// The start parameters as `build_start_params` gives them, with the
/// default recording name stamped with the current time.
pub fn build_start_params_now(
    sys: &SystemRecordConfig,
    user: &Option<UserConfig>,
    username: &str,
    mode: &str,
    filename_override: Option<String>,
    global_path: &Option<String>,
    cli_path: &Option<String>,
) -> (r: Result<StartParams, ParamError>)
    ensures
        kind_named(mode@) is None ==> r == Err::<StartParams, ParamError>(ParamError::InvalidMode),
        kind_named(mode@) == Some(TaskKind::Stream) && rtmp_url_of(*user).len() == 0 ==> r == Err::<
            StartParams,
            ParamError,
        >(ParamError::RtmpUrlRequired),
        kind_named(mode@) == Some(TaskKind::Stream) && rtmp_url_of(*user).len() > 0 ==> (r matches Ok(
            p,
        ) && {
            &&& texts(p.args@) == capture_args(*sys, *user, TaskKind::Stream, Seq::empty())
            &&& p.filename is None
            &&& p.cli_path@ == or_empty(*cli_path)
        }),
        kind_named(mode@) == Some(TaskKind::Record) ==> (r matches Ok(p) && {
            let output = texts(p.args@).last();
            &&& p.args@.len() > 0
            &&& texts(p.args@) == capture_args(*sys, *user, TaskKind::Record, output)
            &&& p.filename is Some
            &&& filename_override matches Some(f) ==> p.filename->Some_0@ == f@
            &&& filename_override is None ==> exists|now: i64|
                p.filename->Some_0@ == #[trigger] default_file_name(username@, now)
            &&& or_empty(*global_path).len() == 0 ==> output == p.filename->Some_0@
            &&& p.cli_path@ == or_empty(*cli_path)
        }),
{
    let now = crate::tokens::unix_now();
    build_start_params(sys, user, username, mode, filename_override, global_path, cli_path, now)
}

} // verus!
