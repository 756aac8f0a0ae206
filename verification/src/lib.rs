//! A verified core for a terminal view built on the Ghostty VT engine: how
//! key names map to key codes, how modes are packed, how the engine's answers
//! become colors, cursors and styles, and how a session configures itself.

pub mod config;
pub mod keys;
pub mod session;
pub mod sys;
pub mod vt;
