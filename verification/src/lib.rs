//! Today's tasks from a task-management service: the OAuth authorization-code
//! hand-off, the requests and the reading of their answers, and the rule that
//! decides which tasks fall on the local "today".

pub mod auth;
pub mod callback;
pub mod client;
pub mod config;
pub mod date;
pub mod datetext;
pub mod display;
pub mod encoding;
pub mod error;
pub mod grouping;
pub mod http;
pub mod startup;
pub mod sweep;
pub mod types;
