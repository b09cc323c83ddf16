//! Settings core of a launcher: the settings document and its defaults,
//! the parser of shortcut strings, and the decisions that keep the registered
//! hotkey and the auto-start entry in step with the settings.

pub mod migrations;
pub mod settings;
pub mod shortcuts;
pub mod startup;
pub mod updater;
