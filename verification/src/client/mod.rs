//! Client-side logic: terminal output styling, display formatting, deploy
//! tracking and the UI state machine.
pub mod ansi;
pub mod format;
pub mod app;
pub mod model;
pub mod jobs;
pub mod update;
pub mod source;
pub mod package;
pub mod device;
