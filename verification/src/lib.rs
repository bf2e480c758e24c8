//! Core of a small tray application that runs scripts on behalf of its
//! front end: what to launch for a script, what to hand back once the
//! child process has finished, and what the tray icon's events lead to.

pub mod greeting;
pub mod shell;
pub mod tray;
