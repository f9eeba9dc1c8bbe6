//! Verified core of a terminal manager for Oh My Posh: shell profile editing,
//! theme and segment catalogs, configuration model, prompt preview layout and
//! the interactive state machine.

pub mod text;
pub mod paths;
pub mod platform;
pub mod shell;
pub mod profile_laws;
pub mod segments;
pub mod config;
pub mod themes;
pub mod fonts;
pub mod install;
pub mod detect;
pub mod preview;
pub mod app;
pub mod events;
pub mod view;
