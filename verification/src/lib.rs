//! Core logic of a build-tool wrapper that runs user-supplied hook
//! scripts around the real tool's subcommands.
//!
//! The crate holds the decision logic only: locating the real tool on a
//! search path without resolving to the wrapper itself, resolving hook
//! files for a subcommand, planning how a hook is built and run, and the
//! step-by-step orchestration of pre-hook, main tool and post-hook with
//! faithful exit-code propagation. All process spawning, filesystem
//! probing and environment reading happens outside this crate; callers
//! feed the observed results back in as plain values.

pub mod cli;
pub mod executor;
pub mod locator;
pub mod orchestrator;
pub mod outcome;
pub mod paths;
pub mod resolver;
