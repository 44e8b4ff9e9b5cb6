//! The decision core of a local process supervisor.
//!
//! The supervisor discovers its runtime environment, prepares configuration and
//! dependencies, launches a fixed set of workers plus one server, checks that they
//! stayed alive and tears all of them down again. This crate holds every decision of
//! that sequence and none of its input or output: the host performs each requested
//! action (probe a command, test a path, spawn a process) and reports what happened.
//!
//! - `path`, `layout`: paths as plain values, and the resolution of the runtime
//!   location from what the host reports.
//! - `worker`, `command`, `launch`: the closed set of workers, the invocations of
//!   external programs, and the decision whether one process is launched.
//! - `tools`, `config`, `liveness`: the search for the external tools, the care
//!   for the configuration file, and the summary of a liveness sweep.
//! - `protocol`: the actions that the supervisor asks for and the events that the
//!   host reports.
//! - `registry`, `supervisor`: the tracked processes and the supervisor that owns
//!   them.
//! - `model`, `traces`: the supervisor as a state machine over mathematical
//!   values, and what holds of its steps and of whole stretches of a startup.

pub mod command;
pub mod config;
pub mod launch;
pub mod layout;
pub mod liveness;
pub mod model;
pub mod path;
pub mod protocol;
pub mod registry;
pub mod supervisor;
pub mod tools;
pub mod traces;
pub mod worker;

pub use crate::supervisor::BackendManager;
