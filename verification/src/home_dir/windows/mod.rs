//! The resolver for Windows: `resolver` decides which native call comes next, `sys`
//! what the answer of each call means, `handles` which handles are held, and `wide`
//! how names read in UTF-16. `laws` states what holds of every resolution.

pub mod handles;
pub mod laws;
pub mod resolver;
pub mod sys;
pub mod wide;

pub use self::resolver::{start, step, WinAction, WinCall, WinEvent, WinPhase, WinState};
