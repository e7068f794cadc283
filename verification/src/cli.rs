//! The top-level command line: global options and the command tree root.

use vstd::prelude::*;
use crate::v1::cli::V1Command;

verus! {

/// The parsed command line.
pub struct Cli {
    pub command: Command,
    /// Output format.
    pub format: OutputFormat,
    /// Suppress headers and metadata, emit only data.
    pub quiet: bool,
    /// Override of the canonical public API base URL.
    pub api_base_url: Option<String>,
    /// Path to a file holding a bearer token, re-read on every invocation.
    pub token_file: Option<String>,
    /// Project slug or id for project-scoped resources.
    pub project: Option<String>,
    /// Idempotency-Key required by create operations and optional elsewhere.
    pub idempotency_key: Option<String>,
}

/// Output formats.
#[derive(Clone, Copy, Debug, PartialEq, Eq, Structural)]
pub enum OutputFormat {
    Json,
    Table,
    Csv,
}

/// The top-level commands.
pub enum Command {
    /// Sign in through Saturation in a browser.
    Login(LoginArgs),
    /// Clear stored credentials.
    Logout,
    /// Machine-readable discovery from the bundled public API contract.
    Schema,
    /// Public API resource commands.
    Api(Box<V1Command>),
}

/// Options of the sign-in command.
pub struct LoginArgs {
    /// OAuth authority.
    pub issuer: String,
    /// Print the sign-in URL instead of opening a browser.
    pub no_browser: bool,
}

} // verus!
