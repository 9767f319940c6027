//! Core of a small personal file-storage backend: account and session
//! registry, TOTP-based registration and login, bearer-token resolution,
//! per-user path sandboxing, and the periodic expiry sweep.
//!
//! Everything here is verified. The surrounding HTTP server, the filesystem
//! streaming and the snapshot persistence live outside this crate and call
//! into it with plain values.

pub mod auth;
pub mod clock;
pub mod config;
pub mod consts;
pub mod dirs;
pub mod errors;
pub mod otp;
pub mod registry;
pub mod resolver;
pub mod sandbox;
pub mod session;
pub mod sweep;
pub mod text;
pub mod token;
pub mod username;
