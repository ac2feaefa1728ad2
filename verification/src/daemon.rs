//! The supervision state machine.
//!
//! One iteration of supervision is: load and validate the configuration,
//! spawn the server from it, and interpret the outcome. The decisions are
//! made here and are verified; the outside work — reading the resource,
//! running the server — happens between the steps, in whatever drives the
//! loop.
//!
//! Configuration errors are fatal: the daemon does not run on an invalid or
//! unreadable configuration. Of the server outcomes only a changed listen
//! address is retried, by going back to loading; the loop has no bound on
//! such restarts, so the address can be reconfigured hot as often as the
//! operator likes.

use vstd::prelude::*;

use crate::cfg::Config;
use crate::cfg::Error;
use crate::srv::ServerSpawnError;

verus! {

/// Where supervision stands: about to (re)load the configuration, about to
/// spawn a server from a configuration it holds, or terminated — orderly,
/// or with the error that was fatal.
#[derive(Debug, PartialEq)]
pub enum DaemonState {
    Loading,
    Spawning(Config),
    ExitOk,
    ExitFailure(Error),
}

/// What loading the configuration leads to: a configuration in hand means a
/// spawn comes next; any load error is fatal.
pub open spec fn spec_after_load(r: Result<Config, Error>) -> DaemonState {
    match r {
        Ok(c) => DaemonState::Spawning(c),
        Err(e) => DaemonState::ExitFailure(e),
    }
}

/// What a spawn outcome leads to: an orderly exit terminates the daemon
/// with success, a changed address goes back to loading (the configuration
/// is re-read, never cached), and an I/O failure is fatal.
pub open spec fn spec_after_spawn(outcome: Result<(), ServerSpawnError>) -> DaemonState {
    match outcome {
        Ok(_) => DaemonState::ExitOk,
        Err(ServerSpawnError::AddressChanged) => DaemonState::Loading,
        Err(ServerSpawnError::Io(m)) => DaemonState::ExitFailure(Error::Io(m)),
    }
}

/// The process status a terminal state exits with: none while supervision
/// is still running.
pub open spec fn spec_exit_status(s: DaemonState) -> Option<i32> {
    match s {
        DaemonState::ExitOk => Some(0),
        DaemonState::ExitFailure(_) => Some(1),
        _ => None,
    }
}

impl DaemonState {
    /// Interprets the result of loading the configuration.
    pub fn next_after_load(r: Result<Config, Error>) -> (s: DaemonState)
        ensures
            s == spec_after_load(r),
    {
        match r {
            Ok(c) => DaemonState::Spawning(c),
            Err(e) => DaemonState::ExitFailure(e),
        }
    }

    /// Interprets the outcome of a spawn attempt.
    pub fn next_after_spawn(outcome: Result<(), ServerSpawnError>) -> (s: DaemonState)
        ensures
            s == spec_after_spawn(outcome),
    {
        match outcome {
            Ok(_) => DaemonState::ExitOk,
            Err(ServerSpawnError::AddressChanged) => DaemonState::Loading,
            Err(ServerSpawnError::Io(m)) => DaemonState::ExitFailure(Error::Io(m)),
        }
    }

    /// The process status this state exits with, if it is terminal.
    pub fn exit_status(&self) -> (r: Option<i32>)
        ensures
            r == spec_exit_status(*self),
    {
        match self {
            DaemonState::ExitOk => Some(0),
            DaemonState::ExitFailure(_) => Some(1),
            _ => None,
        }
    }
}

/// Law: a failed load is fatal at once — the supervisor passes to
/// `ExitFailure` carrying that error, and never reaches a spawn.
pub proof fn lemma_failed_load_is_fatal(e: Error)
    ensures
        spec_after_load(Err(e)) == DaemonState::ExitFailure(e),
        spec_exit_status(spec_after_load(Err(e))) == Some(1i32),
{
}

/// Law: a changed address is the one retried outcome — it alone leads back
/// to loading, so the configuration is re-read before the next spawn; an
/// orderly exit terminates with status zero, and a spawn I/O failure is
/// fatal.
pub proof fn lemma_only_address_change_restarts(outcome: Result<(), ServerSpawnError>)
    ensures
        spec_after_spawn(outcome) is Loading <==> outcome == Err::<(), ServerSpawnError>(
            ServerSpawnError::AddressChanged,
        ),
        outcome is Ok ==> spec_exit_status(spec_after_spawn(outcome)) == Some(0i32),
        (outcome matches Err(ServerSpawnError::Io(m))) ==> spec_after_spawn(outcome)
            == DaemonState::ExitFailure(Error::Io(outcome->Err_0->Io_0)),
{
}

} // verus!
