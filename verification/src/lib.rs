//! Shell-style expansion of strings, and the resolution of home directories.
//!
//! `env_with_context` expands `$NAME` and `${NAME}`, `tilde_with_context` a leading
//! `~`, and `full_with_context` both; each asks its caller for the values. The
//! module `home_dir` holds what decides where a user's home directory is on each
//! family of platforms, with the native calls left to the caller.

pub mod env;
pub mod full;
pub mod home_dir;
pub mod scan;
pub mod tilde;

pub use crate::env::{env_with_context, env_with_context_no_errors, LookupError};
pub use crate::full::{full_with_context, full_with_context_no_errors};
pub use crate::tilde::tilde_with_context;
