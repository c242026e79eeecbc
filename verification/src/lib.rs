//! The logic of a small desktop shell: the greeting command, the log file
//! locations, and the splash-to-main window sequence.

pub mod desktop;
pub mod greeting;
pub mod history;
pub mod log_access;
pub mod logging;
pub mod sequencer;
