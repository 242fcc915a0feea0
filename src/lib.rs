//! Lifecycle management for the sing-box proxy sidecar: the process record and
//! its generation check, the per-platform commands and system-proxy settings,
//! the start/stop/reload/liveness decisions, and the bounded sidecar log.
//!
//! Everything here is pure decision logic; the caller performs the I/O that the
//! returned plans describe and hands the outcomes back.

pub mod app_status;
pub mod database;
pub mod lan;
pub mod lifecycle;
pub mod mode;
pub mod privilege;
pub mod text;
pub mod vpn;
