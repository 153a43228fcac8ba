//! The decisions of a small desktop shell: the text of its one command and
//! what its window-toggle shortcut asks of the main window.
//!
//! Everything here is a function from plain values to plain values. The
//! program around it owns the window, the event loop and the key bindings,
//! and hands this library only what it has read from them.

pub mod greeting;
pub mod window;
