//! A thin front end over project build tools.
//!
//! The library holds the decisions: which build tool governs a project tree,
//! where the out-of-tree build directory lives, which install prefix applies,
//! and the step-by-step plan that each subcommand runs. Every external effect
//! (checking for files, running processes, asking the user) is requested as an
//! action and answered with an event by the caller.

pub mod commands;
pub mod detect;
pub mod model;
pub mod orchestrator;
pub mod paths;
pub mod prefix;
pub mod tap;
pub mod text;

pub use detect::DirMarkers;
pub use model::{BuildMode, BuildSystem, Invocation, ProcessFailure, Step, SubcommandKind, TapError};
pub use orchestrator::{Action, Event, Orchestrator, Phase, Subcommand};
pub use paths::{build_dir, join_path};
pub use prefix::{resolve_prefix, select_prefix, user_prefix};
pub use tap::Tap;
pub use text::decimal_string;
