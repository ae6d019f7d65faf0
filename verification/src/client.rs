//! How the client starts.
use vstd::prelude::*;

verus! {

/// Version of the protocol that the client speaks.
pub const PROTOCOL_VERSION: u32 = 70_014;

/// Least version of the protocol that another node has to speak.
pub const PROTOCOL_MINIMUM: u32 = 70_001;

/// Name of the client.
pub const USER_AGENT: &'static str = "pbtc";

/// Name of the client on a regression test network.
pub const REGTEST_USER_AGENT: &'static str = "/Satoshi:0.12.1/";

/// What is logged where log lines go to the console.
pub const LOG_INFO: &'static str = "sync=trace";

/// Where log lines go.
#[derive(Clone, Copy, PartialEq, Eq, Debug, Structural)]
pub enum Logging {
    /// To the console, each with its date.
    Console,
    /// To a file.
    File,
    /// Where the environment says.
    Environment,
}

/// What the client is to do.
#[derive(Clone, Copy, PartialEq, Eq, Debug, Structural)]
pub enum ClientCommand {
    /// Import blocks.
    Import,
    /// Roll the chain back.
    Rollback,
    /// Run as a node.
    Start,
}

/// How the client starts.
#[derive(Clone, Copy, PartialEq, Eq, Debug, Structural)]
pub struct Startup {
    pub logging: Logging,
    pub command: ClientCommand,
}

/// Where log lines go.
pub open spec fn logging_of(quiet: bool, windows: bool) -> Logging {
    if quiet {
        Logging::Environment
    } else if windows {
        Logging::Console
    } else {
        Logging::File
    }
}

/// What a subcommand stands for. One that is unknown, or that came without its arguments, stands
/// for running as a node.
pub open spec fn command_of(subcommand: Seq<char>, has_arguments: bool) -> ClientCommand {
    if has_arguments && subcommand == "import"@ {
        ClientCommand::Import
    } else if has_arguments && subcommand == "rollback"@ {
        ClientCommand::Rollback
    } else {
        ClientCommand::Start
    }
}

/// Tells how the client starts, given whether its settings, if they are valid, ask for quiet.
pub fn run(
    quiet: Result<bool, String>,
    windows: bool,
    subcommand: &String,
    has_arguments: bool,
) -> (startup: Result<Startup, String>)
    ensures
        match quiet {
            Ok(quiet) => startup matches Ok(startup) && startup == (Startup {
                logging: logging_of(quiet, windows),
                command: command_of(subcommand@, has_arguments),
            }),
            Err(error) => startup matches Err(e) && e == error,
        },
{
    match quiet {
        Ok(quiet) => {
            let logging = if !quiet {
                if windows {
                    Logging::Console
                } else {
                    Logging::File
                }
            } else {
                Logging::Environment
            };
            let command = if has_arguments && *subcommand == "import".to_owned() {
                ClientCommand::Import
            } else if has_arguments && *subcommand == "rollback".to_owned() {
                ClientCommand::Rollback
            } else {
                ClientCommand::Start
            };
            Ok(Startup { logging, command })
        },
        Err(error) => Err(error),
    }
}

} // verus!
