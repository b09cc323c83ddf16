//! The errors of the settings manager.

use crate::shortcuts::parser::{ParseError, ParseFault};
use vstd::prelude::*;
use vstd::string::*;

verus! {

/// The step of reading or writing the store at which it failed.
#[derive(Debug, Clone, Copy, PartialEq, Eq, Structural)]
pub enum StoreStep {
    /// The store could not be reached.
    Access,
    /// The stored value is not a settings document.
    Deserialize,
    /// The document could not be turned into a value to store.
    Serialize,
    /// The store could not be written to disk.
    Persist,
}

/// The call to the OS auto-start registrar that failed.
#[derive(Debug, Clone, Copy, PartialEq, Eq, Structural)]
pub enum AutoStartStep {
    /// Asking whether auto-start is enabled.
    Status,
    /// Enabling auto-start.
    Enable,
    /// Disabling auto-start.
    Disable,
}

/// Why the settings manager could not do what was asked.
#[derive(Debug, Clone, PartialEq, Eq)]
pub enum SettingsError {
    /// The shortcut string was refused.
    Parse(ParseError),
    /// The store failed at `step`, for `reason`.
    Store { step: StoreStep, reason: String },
    /// The OS refused to register `shortcut`, for `reason`.
    Registration { shortcut: String, reason: String },
    /// The OS auto-start registrar failed at `step`, for `reason`.
    AutoStart { step: AutoStartStep, reason: String },
}

/// A `SettingsError` as a mathematical value.
pub enum SettingsFault {
    /// The shortcut string was refused.
    Parse(ParseFault),
    /// The store failed at `step`, for `reason`.
    Store { step: StoreStep, reason: Seq<char> },
    /// The OS refused to register `shortcut`, for `reason`.
    Registration { shortcut: Seq<char>, reason: Seq<char> },
    /// The OS auto-start registrar failed at `step`, for `reason`.
    AutoStart { step: AutoStartStep, reason: Seq<char> },
}

impl View for SettingsError {
    type V = SettingsFault;

    open spec fn view(&self) -> SettingsFault {
        match self {
            SettingsError::Parse(error) => SettingsFault::Parse(error@),
            SettingsError::Store { step, reason } => SettingsFault::Store {
                step: *step,
                reason: reason@,
            },
            SettingsError::Registration { shortcut, reason } => SettingsFault::Registration {
                shortcut: shortcut@,
                reason: reason@,
            },
            SettingsError::AutoStart { step, reason } => SettingsFault::AutoStart {
                step: *step,
                reason: reason@,
            },
        }
    }
}

/// The words that introduce a failure of the store.
pub open spec fn store_words(step: StoreStep) -> Seq<char> {
    match step {
        StoreStep::Access => "Failed to access store: "@,
        StoreStep::Deserialize => "Failed to deserialize settings: "@,
        StoreStep::Serialize => "Failed to serialize settings: "@,
        StoreStep::Persist => "Failed to persist settings: "@,
    }
}

/// The words that introduce a failure of the auto-start registrar.
pub open spec fn auto_start_words(step: AutoStartStep) -> Seq<char> {
    match step {
        AutoStartStep::Status => "Failed to check autostart status: "@,
        AutoStartStep::Enable => "Failed to enable autostart: "@,
        AutoStartStep::Disable => "Failed to disable autostart: "@,
    }
}

/// A fault in words.
pub open spec fn message_of(fault: SettingsFault) -> Seq<char> {
    match fault {
        SettingsFault::Parse(fault) => crate::shortcuts::parser::message_of(fault),
        SettingsFault::Store { step, reason } => store_words(step) + reason,
        SettingsFault::Registration { shortcut, reason } => "Failed to register shortcut '"@
            + shortcut + "': "@ + reason,
        SettingsFault::AutoStart { step, reason } => auto_start_words(step) + reason,
    }
}

impl SettingsError {
    /// The error in words.
    pub fn message(&self) -> (text: String)
        ensures
            text@ == message_of(self@),
    {
        match self {
            SettingsError::Parse(error) => error.message(),
            SettingsError::Store { step, reason } => {
                let words = match step {
                    StoreStep::Access => "Failed to access store: ",
                    StoreStep::Deserialize => "Failed to deserialize settings: ",
                    StoreStep::Serialize => "Failed to serialize settings: ",
                    StoreStep::Persist => "Failed to persist settings: ",
                };
                String::from_str(words).concat(reason.as_str())
            },
            SettingsError::Registration { shortcut, reason } => String::from_str(
                "Failed to register shortcut '",
            ).concat(shortcut.as_str()).concat("': ").concat(reason.as_str()),
            SettingsError::AutoStart { step, reason } => {
                let words = match step {
                    AutoStartStep::Status => "Failed to check autostart status: ",
                    AutoStartStep::Enable => "Failed to enable autostart: ",
                    AutoStartStep::Disable => "Failed to disable autostart: ",
                };
                String::from_str(words).concat(reason.as_str())
            },
        }
    }
}

} // verus!
