//! The public `/v1` API: its command model, request planning, transport
//! decisions and error model.

pub mod error;
pub mod client;
pub mod cli;
pub mod plan;
