//! Schedules a program to run at a fixed interval as a launchd agent.
//!
//! The library derives, from a parsed command line and a handful of facts
//! about the host, everything that registering the agent needs: the interval
//! in seconds, the program's path and the agent's name, the directories for
//! logs and descriptors, and the text of the property-list descriptor. It
//! never touches the host itself; what has to be done there is handed out as
//! a sequence of effects for the caller to perform.

pub mod config;
pub mod error;
pub mod path;
pub mod period;
pub mod plist;
pub mod registrar;
pub mod text;

pub use crate::config::{Cli, Environment, LaunchConfig, LaunchDirs, ProgramPath};
pub use crate::error::RunError;
pub use crate::path::HostPath;
pub use crate::period::Period;
pub use crate::plist::PlistFile;
pub use crate::registrar::{plan, Effect, Outcome, Plan, Registrar};
