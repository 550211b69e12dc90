//! A minimal process keeper: the decisions of a supervisor that launches one
//! shell command, waits for it to exit and launches it again, either attended
//! in the foreground or detached as a daemon.
//!
//! The library holds the rules; the program around it performs the effects.
//! Each component is a small machine: it names the next action, the caller
//! performs it and reports back what happened.

pub mod daemon;
pub mod decimal;
pub mod session;
pub mod signal;
pub mod supervise;

pub use daemon::process_daomon_command;
pub use signal::process_siganls;
pub use supervise::process_command;
