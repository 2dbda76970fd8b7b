//! Small, self-contained building blocks: classification by pattern, input
//! validation with a typed error, sums and element-wise transforms that may
//! run in parallel, and the decision logic of a few small clients.
//!
//! Every function states what it returns in terms of a mathematical model,
//! and Verus proves the statement.

pub mod channel;
pub mod cli_args;
pub mod command;
pub mod data_processing;
pub mod decimal;
pub mod derive_concept;
pub mod http;
pub mod json;
pub mod logging;
pub mod parallel;
pub mod pattern_matching;
pub mod text_file;
pub mod threads;
pub mod tracing_events;
pub mod websocket;
