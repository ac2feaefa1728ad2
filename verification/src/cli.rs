//! Command-line arguments, as the core consumes them.
//!
//! Reading `argv` and the environment is the collaborator's business; this
//! module holds the decisions behind it: which configuration path wins when
//! none was given, which subcommand name is valid, and which status a
//! failed invocation exits with.

use vstd::prelude::*;

verus! {

/// What a binary says about itself in its usage text.
#[derive(Debug, Clone, PartialEq)]
pub struct CrateInfo {
    pub name: String,
    pub version: String,
    pub authors: String,
    pub description: String,
}

/// Why arguments could not be turned into a runnable invocation, or why no
/// run is wanted: a help or version message was displayed and the program
/// should exit with status 0, an argument was invalid, or the subcommand
/// was missing or unknown.
#[derive(Debug, Clone, PartialEq, Eq, Structural)]
pub enum Error {
    MessageDisplayed,
    InvalidArgument,
    InvalidCommand,
}

/// The process status an argument error exits with: zero when the program
/// was only asked for a message, one otherwise.
pub open spec fn spec_exit_code(e: Error) -> i32 {
    match e {
        Error::MessageDisplayed => 0,
        _ => 1,
    }
}

impl Error {
    /// The process status this error exits with.
    pub fn exit_code(&self) -> (r: i32)
        ensures
            r == spec_exit_code(*self),
    {
        match *self {
            Error::MessageDisplayed => 0,
            _ => 1,
        }
    }
}

/// The configuration path used when none is given on the command line.
pub open spec fn default_config_path() -> Seq<char> {
    "/usr/local/etc/messycanvas/canvasd.toml"@
}

/// The configuration path used when none is given on the command line.
pub fn get_default_config_path() -> (r: String)
    ensures
        r@ == default_config_path(),
{
    "/usr/local/etc/messycanvas/canvasd.toml".to_owned()
}

/// The daemon's arguments: where to read the configuration, and whether to
/// log verbosely.
#[derive(Debug, Clone, PartialEq)]
pub struct CanvasdArgs {
    pub config_path: String,
    pub verbose: bool,
}

impl CanvasdArgs {
    /// Settles the daemon's arguments: a configuration path given on the
    /// command line wins; without one the default path is used.
    pub fn parse_args(config_path: Option<String>, verbose: bool) -> (args: CanvasdArgs)
        ensures
            args.verbose == verbose,
            match config_path {
                Some(p) => args.config_path == p,
                None => args.config_path@ == default_config_path(),
            },
    {
        CanvasdArgs {
            config_path: match config_path {
                Some(p) => p,
                None => get_default_config_path(),
            },
            verbose,
        }
    }
}

/// The control binary's subcommands.
#[derive(Debug, Clone, PartialEq, Eq, Structural)]
pub enum CanvasCtlCommand {
    CfgTest,
}

/// Which subcommand a name denotes, if any: `cfgtest` is the only one.
pub open spec fn spec_command(s: Seq<char>) -> Option<CanvasCtlCommand> {
    if s == "cfgtest"@ {
        Some(CanvasCtlCommand::CfgTest)
    } else {
        None
    }
}

impl CanvasCtlCommand {
    /// Resolves a subcommand name; an unknown name is an invalid command.
    pub fn from_str(s: &str) -> (r: Result<CanvasCtlCommand, Error>)
        ensures
            match spec_command(s@) {
                Some(c) => r == Ok::<CanvasCtlCommand, Error>(c),
                None => r == Err::<CanvasCtlCommand, Error>(Error::InvalidCommand),
            },
    {
        let name = s.to_owned();
        let known = "cfgtest".to_owned();
        if name == known {
            Ok(CanvasCtlCommand::CfgTest)
        } else {
            Err(Error::InvalidCommand)
        }
    }
}

/// The control binary's arguments: the subcommand to run, where to read the
/// configuration, and whether to log verbosely.
#[derive(Debug, Clone, PartialEq)]
pub struct CanvasCtlArgs {
    pub command: CanvasCtlCommand,
    pub config_path: String,
    pub verbose: bool,
}

impl CanvasCtlArgs {
    /// Settles the control binary's arguments. A missing or unknown
    /// subcommand is an invalid command; the configuration path is settled
    /// as for the daemon.
    pub fn parse_args(subcommand: Option<String>, config_path: Option<String>, verbose: bool) -> (r:
        Result<CanvasCtlArgs, Error>)
        ensures
            match subcommand {
                None => r == Err::<CanvasCtlArgs, Error>(Error::InvalidCommand),
                Some(name) => match spec_command(name@) {
                    None => r == Err::<CanvasCtlArgs, Error>(Error::InvalidCommand),
                    Some(cmd) => r matches Ok(a) && a.command == cmd && a.verbose == verbose
                        && (match config_path {
                        Some(p) => a.config_path == p,
                        None => a.config_path@ == default_config_path(),
                    }),
                },
            },
    {
        let name = match subcommand {
            Some(n) => n,
            None => {
                return Err(Error::InvalidCommand);
            },
        };
        let command = match CanvasCtlCommand::from_str(name.as_str()) {
            Ok(c) => c,
            Err(e) => {
                return Err(e);
            },
        };
        Ok(CanvasCtlArgs {
            command,
            config_path: match config_path {
                Some(p) => p,
                None => get_default_config_path(),
            },
            verbose,
        })
    }
}

} // verus!
