//! Authorization and status-aggregation core for a fleet of host service
//! units. The library decides which verbs (start, stop, restart, status) are
//! legal for which units, plans the single outside call a request needs,
//! turns call outcomes into response text, and drives the presence summary
//! of currently active units. All I/O — process invocation, IPC, the chat
//! front end — lives outside, behind plain-value boundaries.

pub mod builder;
pub mod commands;
pub mod config;
pub mod errors;
pub mod parser;
mod process;
pub mod status_monitor;
pub mod systemctl;
pub mod text;
pub mod units;
