//! Verified core of the Saturation command-line client: the command model,
//! request planning, response and error handling, output formatting,
//! configuration state and the decisions of the sign-in flow.

pub mod text;
pub mod cli;
pub mod json;
pub mod output;
pub mod config;
pub mod auth;
pub mod workspace;
pub mod agent;
pub mod schema;
pub mod v1;
