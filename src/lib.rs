//! Arbitration of a single capture resource shared by many users: the
//! exclusive capture slot, the stop/handoff negotiation between users,
//! one-time download tokens, path confinement, resolution clamping and the
//! small spawn protocol spoken with the companion agent.
pub mod text;
pub mod resolution;
pub mod recorder;
pub mod negotiation;
pub mod tokens;
pub mod paths;
pub mod params;
pub mod agent;
pub mod password;
pub mod payloads;
pub mod access;
