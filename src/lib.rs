//! Usage quotas of an assistant account: reading the usage reported by the
//! service, normalising its response shapes, and rendering it for a terminal.

pub mod duration;
pub mod guardrails;
pub mod json;
pub mod present;
pub mod query;
pub mod report;
pub mod schema;
pub mod text;
pub mod usage;
