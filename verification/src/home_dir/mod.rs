//! The home directory of a user, by name or of the current one.
//!
//! Each family of platforms has a module of its own, with a function `home_dir`.
//! `nix` and `windows` hold a resolver that is driven step by step: it names the
//! native call to make next and takes what the call gave, so that every decision is
//! made here and the caller only makes the calls; their `home_dir` runs a whole
//! resolution with the caller's way of making them. `redox` reads a snapshot of the
//! user registry, and `other` serves platforms that offer nothing but the current
//! user. All of them fail with the one `HomeDirError`.

pub mod buffer;
pub mod error;
pub mod nix;
pub mod other;
pub mod path;
pub mod redox;
pub mod user;
pub mod windows;

pub use self::error::{HomeDirError, HomeDirErrorKind};
pub use self::path::ResolvedPath;
pub use self::user::UserRef;
