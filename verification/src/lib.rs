//! Command-execution core of a command-line benchmarking tool: turn a raw
//! command line into a concrete executable and argument list, account for the
//! CPU time a child process consumed, and assemble the outcome of one timed
//! run. Process creation and the platform timing queries themselves live with
//! the caller; everything that decides or computes is here, with contracts.

pub mod prepare;
pub mod runner;
pub mod timer;
