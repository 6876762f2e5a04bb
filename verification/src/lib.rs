//! Core logic of a Windows tweaking utility: input validation and
//! sanitization for shell commands, rate limiting, subprocess outcome
//! classification, command-output normalization, and the pure decision
//! parts of its hardware-identification, debugger-detection, Discord
//! authorization, and taskbar-appearance features.
//!
//! Everything that touches the host — spawning the interpreter, the
//! network, the clock, the filesystem — stays with the caller: the
//! functions here take plain values and promise exactly what they
//! compute from them.

pub mod blocklist;
pub mod commands;
pub mod debug_check;
pub mod discord_auth;
pub mod errors;
pub mod executor;
pub mod hwid;
pub mod normalize;
pub mod rate_limit;
pub mod sanitize;
pub mod taskbar;
pub mod text;
pub mod validate;
pub mod wipe;
