//! Curation of taste and display profiles through a keyboard-driven,
//! screen-and-mode state machine.

pub mod app;
pub mod display;
pub mod wizard;
pub mod menu;
pub mod profile;
pub mod taste;
pub mod text;
