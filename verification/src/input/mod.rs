//! User input: keyboard and mouse events turned into application actions.

pub mod action;
pub mod keyboard;
pub mod keys;
pub mod state;
pub mod mouse;
pub mod poll;
