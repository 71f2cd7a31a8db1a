//! Modal key bindings for a terminal application.
//!
//! A key press is resolved against a table of bindings that depends on the
//! current mode (normal, insert or command), and the resulting action is
//! applied to the application state. Every function is verified against a
//! mathematical model of the table and of the state.

pub mod app;
pub mod display;
pub mod key;
pub mod keybinds;
pub mod text;
