//! Three-level dispatch on (platform, command, subcommand), with the exact
//! error banner owed at each level.

use vstd::prelude::*;
use crate::Cli;

verus! {

/// The recognized leaf operations.
#[derive(Debug, PartialEq, Eq, Structural, Clone, Copy)]
pub enum Action {
    ListSites,
    ListDeploys,
}

/// A dispatch failure, one per level of the grammar.
#[derive(Debug, PartialEq, Eq, Structural, Clone, Copy)]
pub enum CliError {
    PlatformNotSpecified,
    CommandNotFound,
    SubcommandNotFound,
}

impl CliError {
    /// The banner owed for this failure.
    pub open spec fn spec_message(self) -> Seq<char> {
        match self {
            CliError::PlatformNotSpecified => "A platform must be provided. Valid options are: netlify"@,
            CliError::CommandNotFound => "A command must be provided. Valid options are: list"@,
            CliError::SubcommandNotFound => "A subcommand must be provided. Valid options are: sites"@,
        }
    }

    /// The banner owed for this failure, verbatim.
    pub fn message(&self) -> (r: String)
        ensures
            r@ == self.spec_message(),
    {
        match self {
            CliError::PlatformNotSpecified => String::from_str(
                "A platform must be provided. Valid options are: netlify",
            ),
            CliError::CommandNotFound => String::from_str(
                "A command must be provided. Valid options are: list",
            ),
            CliError::SubcommandNotFound => String::from_str(
                "A subcommand must be provided. Valid options are: sites",
            ),
        }
    }
}

/// The platform level accepts exactly `netlify`.
pub open spec fn spec_is_netlify(platform: Option<String>) -> bool {
    platform matches Some(p) && p@ == "netlify"@
}

/// What `route` decides, level by level: platform, then command, then
/// subcommand, failing at the first unrecognized level.
pub open spec fn spec_route(cli: Cli) -> Result<Action, CliError> {
    if !spec_is_netlify(cli.platform) {
        Err(CliError::PlatformNotSpecified)
    } else if cli.command@ != "list"@ {
        Err(CliError::CommandNotFound)
    } else if cli.subcommand@ == "sites"@ {
        Ok(Action::ListSites)
    } else if cli.subcommand@ == "deploys"@ {
        Ok(Action::ListDeploys)
    } else {
        Err(CliError::SubcommandNotFound)
    }
}

/// Dispatch an invocation to the leaf operation it names, or to the error
/// for the first level that is absent or unrecognized.
pub fn route(cli: &Cli) -> (r: Result<Action, CliError>)
    ensures
        r == spec_route(*cli),
{
    let netlify = match &cli.platform {
        Some(p) => *p == String::from_str("netlify"),
        None => false,
    };
    if !netlify {
        Err(CliError::PlatformNotSpecified)
    } else if !(cli.command == String::from_str("list")) {
        Err(CliError::CommandNotFound)
    } else if cli.subcommand == String::from_str("sites") {
        Ok(Action::ListSites)
    } else if cli.subcommand == String::from_str("deploys") {
        Ok(Action::ListDeploys)
    } else {
        Err(CliError::SubcommandNotFound)
    }
}

/// Every invocation whose platform option is absent or not `netlify` is
/// dispatched to the platform failure, whose banner is exactly the platform
/// banner.
pub proof fn lemma_platform_banner(cli: Cli)
    requires
        !spec_is_netlify(cli.platform),
    ensures
        spec_route(cli) == Err::<Action, CliError>(CliError::PlatformNotSpecified),
        CliError::PlatformNotSpecified.spec_message()
            == "A platform must be provided. Valid options are: netlify"@,
{
}

/// Every invocation naming the `netlify` platform and a command other than
/// `list` is dispatched to the command failure, whose banner is exactly the
/// command banner.
pub proof fn lemma_command_banner(cli: Cli)
    requires
        spec_is_netlify(cli.platform),
        cli.command@ != "list"@,
    ensures
        spec_route(cli) == Err::<Action, CliError>(CliError::CommandNotFound),
        CliError::CommandNotFound.spec_message()
            == "A command must be provided. Valid options are: list"@,
{
}

/// Every invocation naming the `netlify` platform, the `list` command and a
/// subcommand other than `sites` or `deploys` is dispatched to the
/// subcommand failure, whose banner is exactly the subcommand banner.
pub proof fn lemma_subcommand_banner(cli: Cli)
    requires
        spec_is_netlify(cli.platform),
        cli.command@ == "list"@,
        cli.subcommand@ != "sites"@,
        cli.subcommand@ != "deploys"@,
    ensures
        spec_route(cli) == Err::<Action, CliError>(CliError::SubcommandNotFound),
        CliError::SubcommandNotFound.spec_message()
            == "A subcommand must be provided. Valid options are: sites"@,
{
}

} // verus!
