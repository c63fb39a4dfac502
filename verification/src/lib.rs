//! Command logic for a small desktop shell: a greeting, a notification
//! request, and the lifecycle of a single full-screen projection window.
//!
//! The host runtime owns the windows and the notification service. The
//! commands here decide what to ask of it and what to tell the caller; the
//! code that talks to the host performs the request and hands the reply back.

pub mod config;
pub mod greeting;
pub mod host;
pub mod lifecycle;
pub mod notification;
pub mod projection;
