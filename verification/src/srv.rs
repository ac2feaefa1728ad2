//! The server collaborator, as the supervisor sees it.
//!
//! The supervisor hands a validated `Config` to a server runner and gets one
//! `SpawnOutcome` back per attempt: `Ok(())` when the server ran and exited
//! in an orderly way, or a `ServerSpawnError` otherwise. Binding the address
//! and serving requests is the runner's business and stands outside this
//! library; the supervisor only interprets the outcome.

use vstd::prelude::*;

verus! {

/// Why a spawn attempt did not end in an orderly shutdown: either the
/// configured listen address changed and the server must be restarted in
/// place, or a fatal I/O failure (the carried text is its diagnostic).
#[derive(Debug, Clone, PartialEq)]
pub enum ServerSpawnError {
    AddressChanged,
    Io(String),
}

/// The handle under which a server runner is spawned. The runner itself —
/// the code that binds `Config::listen_addr` and serves until a terminal
/// condition — is an external collaborator; the library defines only the
/// lifecycle contract the supervisor relies on.
#[derive(Debug, Clone, PartialEq, Eq, Structural)]
pub struct Server;

} // verus!
