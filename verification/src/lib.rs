//! Move a file or directory to a new location and leave a symbolic link
//! at the original path pointing to the new location, so existing
//! references to the old path keep working.
//!
//! The crate has two verified parts: a pure symlink-target resolver
//! (`path_utils`), and a move-and-link engine (`operation`) written as
//! a state machine whose filesystem actions are carried out by the
//! caller.  `transition` holds the engine's mathematical model,
//! `safety` the theorems proved about it, and `glob_expand` expands
//! the source patterns a command line may hand in.

pub mod cli;
pub mod error;
pub mod glob_expand;
pub mod operation;
pub mod path_model;
pub mod safety;
pub mod path_utils;
pub mod transition;

pub use cli::Cli;
pub use error::MvlnError;
pub use glob_expand::{expand_globs, is_glob_pattern, GlobError};
pub use operation::{Engine, MoveOptions, MoveResult};
pub use path_utils::compute_symlink_target;
