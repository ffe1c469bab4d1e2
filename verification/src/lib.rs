//! Verified core of a small controller for AdGuard Home protection: the
//! duration syntax of the command line, the requests sent to the server's
//! control API, the texts shown to the user, and the state kept by the
//! system-tray icon.

pub mod api;
pub mod config;
pub mod duration;
pub mod icons;
pub mod report;
pub mod text;
pub mod tray;
