//! Core of the canvas daemon: configuration loading and validation, and the
//! supervision state machine that decides when the server is respawned.

pub mod cfg;
pub mod cli;
pub mod daemon;
pub mod doc;
pub mod parse;
pub mod srv;

pub use doc::ConfigDoc;
pub use doc::DocV;
