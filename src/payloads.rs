//! Plain data that clients and administrators hand to the service: start
//! and rename requests, credentials, identity claims, settings, and what a
//! hardware scan of the capture binary reports.
use vstd::prelude::*;

verus! {

/// A request to start capturing: an optional file name for a recording and
/// an optional mode (`record` or `stream`, `record` when absent).
#[derive(Clone, Debug, PartialEq, Eq)]
pub struct StartRecordingPayload {
    pub filename: Option<String>,
    pub mode: Option<String>,
}

impl StartRecordingPayload {
    /// The requested mode, `record` when none was given.
    pub fn mode_or_record(&self) -> (r: String)
        ensures
            r@ == (match self.mode {
                Some(m) => m@,
                None => "record"@,
            }),
    {
        match &self.mode {
            Some(m) => m.clone(),
            None => String::from_str("record"),
        }
    }
}

/// A request to rename a recording.
#[derive(Clone, Debug, PartialEq, Eq)]
pub struct RenamePayload {
    pub new_filename: String,
}

/// Credentials offered to log in or register.
#[derive(Clone, Debug, PartialEq, Eq)]
pub struct AuthPayload {
    pub username: String,
    pub password: String,
}

/// The first administrator account's credentials.
#[derive(Clone, Debug, PartialEq, Eq)]
pub struct AdminConfig {
    pub username: String,
    pub password: String,
}

/// What a verified bearer credential says of its holder: the subject (the
/// user id in text), the user name, the role, and the expiry in seconds
/// since the Unix epoch.
#[derive(Clone, Debug, PartialEq, Eq)]
pub struct Claims {
    pub sub: String,
    pub username: String,
    pub role: String,
    pub exp: usize,
}

/// The configured path of the capture binary.
#[derive(Clone, Debug, PartialEq, Eq)]
pub struct CliPathConfig {
    pub path: String,
}

/// The configured recording directory.
#[derive(Clone, Debug, PartialEq, Eq)]
pub struct GlobalPathConfig {
    pub path: String,
}

/// The configured lifetime of download tokens, in minutes.
#[derive(Clone, Copy, Debug, PartialEq, Eq, Structural)]
pub struct DownloadTokenTtlConfig {
    pub minutes: i64,
}

impl DownloadTokenTtlConfig {
    /// The lifetime to use: at least one minute.
    pub fn effective_minutes(&self) -> (r: i64)
        ensures
            r == (if self.minutes < 1 {
                1
            } else {
                self.minutes
            }),
    {
        crate::tokens::token_ttl_minutes(Some(self.minutes))
    }
}

/// The configured display name of the server.
#[derive(Clone, Debug, PartialEq, Eq)]
pub struct ServerNameConfig {
    pub name: String,
}

/// A device that the capture binary can use.
#[derive(Clone, Debug, PartialEq, Eq)]
pub struct Device {
    pub id: String,
    pub name: String,
}

/// The devices a hardware scan of the capture binary reported.
#[derive(Clone, Debug, PartialEq, Eq)]
pub struct HardwareInfo {
    pub screens: Vec<Device>,
    pub desktop_audio: Vec<Device>,
    pub microphone: Vec<Device>,
    pub encoders: Vec<Device>,
}

/// A new announcement's text.
#[derive(Clone, Debug, PartialEq, Eq)]
pub struct CreateAnnouncementPayload {
    pub content: String,
}

/// The answer to a successful login or registration: the bearer credential
/// and who it names.
#[derive(Clone, Debug, PartialEq, Eq)]
pub struct AuthResponse {
    pub token: String,
    pub username: String,
    pub role: String,
}

/// The outcome of installing or removing the background service.
#[derive(Clone, Debug, PartialEq, Eq)]
pub struct InstallServiceResponse {
    pub success: bool,
    pub message: String,
}

/// Whether first-time setup has been completed.
#[derive(Clone, Copy, Debug, PartialEq, Eq, Structural)]
pub struct StatusResponse {
    pub initialized: bool,
}

/// Whether setup has been completed, and the server's display name.
#[derive(Clone, Debug, PartialEq, Eq)]
pub struct InfoResponse {
    pub initialized: bool,
    pub name: String,
}

/// The database connection settings given at first-time setup, with the
/// secret that signs bearer credentials.
#[derive(Clone, Debug, PartialEq, Eq)]
pub struct DbConfig {
    pub host: String,
    pub port: u16,
    pub user: String,
    pub password: String,
    pub dbname: String,
    pub jwt_secret: String,
}

/// A new password for an account, set by an administrator.
#[derive(Clone, Debug, PartialEq, Eq)]
pub struct ResetPasswordPayload {
    pub new_password: String,
}

} // verus!
