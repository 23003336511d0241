//! Rules of a tray front-end for the `warp-cli` tool: which words each
//! request hands to the tool, how a finished run is turned into the answer
//! shown to the user, and what each tray or window event leads to.
//!
//! Nothing here starts a process or touches a window; callers do that and
//! hand plain values in and out.

pub mod command;
pub mod reply;
pub mod text;
pub mod tray;
