//! Decisions and state behind the canvas overlays of a note-taking
//! application: the pen toggles, the global colour picker, the tab view,
//! the progress bar and the toast queue.
pub mod colors;
pub mod layout;
pub mod pen_style;
pub mod progress;
pub mod tabs;
pub mod toasts;
