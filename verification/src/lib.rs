//! Core logic of a small command-line client for a static-site platform:
//! command dispatch, error banners, and terminal output formatting for
//! site and deploy listings.

use vstd::prelude::*;

pub mod dispatch;
pub mod netlify;

pub use dispatch::Action;
pub use dispatch::CliError;
pub use dispatch::route;
pub use netlify::Site;
pub use netlify::Deploy;

verus! {

/// A parsed invocation: `<command> <subcommand> [target] [-p|--platform <name>]`.
pub struct Cli {
    pub command: String,
    pub subcommand: String,
    pub target: Option<String>,
    pub platform: Option<String>,
}

/// Startup configuration: the bearer token read from the environment, if any.
pub struct CliConfig {
    pub netlify_token: Option<String>,
}

impl Default for CliConfig {
    /// The default configuration carries an empty (but present) token.
    fn default() -> (r: Self)
        ensures
            r.netlify_token matches Some(t) && t@ == Seq::<char>::empty(),
    {
        CliConfig { netlify_token: Some(String::new()) }
    }
}

} // verus!
