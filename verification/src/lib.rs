//! Core logic of the Oxide CHIP-8 front end: the framebuffer, the settings
//! state machine, key and shortcut parsing, save-state bookkeeping, the
//! debug terminal log and the developer message catalog.

pub mod display;
pub mod types;
pub mod text;
pub mod savestate;
pub mod keys;
pub mod settings;
pub mod catalog;
pub mod terminal;
pub mod report;
pub mod session;
pub mod binding;
pub mod icon;
pub mod highlight;
pub mod images;
