//! Verified core of a desktop front end for the `adguardvpn-cli` command line tool:
//! cleaning and parsing of the tool's output, the command lines it is asked to run,
//! and the state machine that turns user actions and command results into new state.

pub mod text;
pub mod output;
pub mod locations;
pub mod options;
pub mod commands;
pub mod app;
pub mod laws;
