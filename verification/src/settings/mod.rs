//! The settings document, and the manager that applies it.

pub mod error;
pub mod laws;
pub mod manager;
pub mod types;

pub use error::{AutoStartStep, SettingsError, SettingsFault, StoreStep};
pub use manager::{OsCall, Pending, SettingsManager, Step, StoreWrite, StoredDocument};
pub use types::AppSettings;
