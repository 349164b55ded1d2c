//! An agentless, declarative configuration-management engine.
//!
//! A task list describes the expected state of a host as an ordered
//! sequence of tasks, each an ordered sequence of steps, each bound to
//! exactly one module (package, service, file line, shell command,
//! reachability probe). A [`job::Job`] binds a task list to one host;
//! its workflow first evaluates the divergence between expected and
//! actual state (`dry run`) and then, on demand, enforces convergence
//! (`apply`).
//!
//! The engine itself never touches a socket or spawns a process: it is
//! a state machine that hands its caller the shell commands to run on
//! the target and consumes their results. The caller supplies the
//! channel (a local shell, an SSH session) and drives the loop.

pub mod connection;
pub mod context;
pub mod error;
pub mod host;
pub mod job;
pub mod json;
pub mod modules;
pub mod parsing;
pub mod step;
pub mod strutil;
pub mod task;
pub mod workflow;
