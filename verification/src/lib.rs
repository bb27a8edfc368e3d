//! Build orchestration for a kernel image: fetch a source archive, unpack it,
//! layer a configuration, compile, collect the artifacts and clean up.
//!
//! Every decision the pipeline makes is computed here as plain data: which
//! target parameters a user-facing architecture token stands for, which
//! external commands run with which arguments and in which order, and how a
//! run advances or aborts. A thin unverified driver performs the described
//! actions (network, subprocesses, files) and reports each outcome back.

pub mod config;
pub mod error;
pub mod pipeline;
pub mod runner;
pub mod overrides;
pub mod target;
pub mod text;
