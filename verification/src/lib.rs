//! Orchestration core for plan/build agent loops: status state machine,
//! executor launch planning, and the ordered log store with its processors.

pub mod analytics;
pub mod details;
pub mod error;
pub mod executor;
pub mod logs;
pub mod model;
pub mod msg_store;
pub mod normalizer;
pub mod ralph_loop;
pub mod routes;
pub mod sentry;
pub mod status;
pub mod text;
pub mod workspace;
