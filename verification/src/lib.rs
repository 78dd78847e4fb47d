//! Pulse: uptime and status monitoring. This library holds what the
//! service decides: how each kind of check is carried out and judged, how
//! failed attempts are retried, when a heartbeat is important, what each
//! notification channel is sent, which monitors have a running check task,
//! and what status pages show.

pub mod text;
pub mod models;
pub mod checks;
pub mod id_lists;
pub mod notify;
pub mod scheduler;
pub mod pages;
