//! The result of looking for an update.

use vstd::prelude::*;
use vstd::string::*;

verus! {

/// An update that is available.
#[derive(Debug, Clone, PartialEq, Eq)]
pub struct UpdateInfo {
    /// The version on offer.
    pub version: String,
    /// Release notes, if any.
    pub body: Option<String>,
    /// Release date, if any.
    pub date: Option<String>,
}

/// The result of looking for an update.
#[derive(Debug, Clone, PartialEq, Eq)]
pub enum UpdateCheckResult {
    /// An update is available.
    Available(UpdateInfo),
    /// The running version is the latest.
    UpToDate,
    /// Looking for an update failed, with this message.
    Error(String),
}

/// What the updater gave when asked for an update.
#[derive(Debug, Clone, PartialEq, Eq)]
pub enum UpdateCheck {
    /// No updater could be had, for this reason.
    NoUpdater(String),
    /// The updater could not tell, for this reason.
    Failed(String),
    /// The updater found nothing newer.
    Nothing,
    /// The updater found this update.
    Found(UpdateInfo),
}

/// The result to report for what the updater gave.
pub fn check_for_updates(check: UpdateCheck) -> (r: UpdateCheckResult)
    ensures
        match check {
            UpdateCheck::Found(info) => r == UpdateCheckResult::Available(info),
            UpdateCheck::Nothing => r == UpdateCheckResult::UpToDate,
            UpdateCheck::Failed(reason) => r matches UpdateCheckResult::Error(message) && message@
                == "Failed to check for updates: "@ + reason@,
            UpdateCheck::NoUpdater(reason) => r matches UpdateCheckResult::Error(message)
                && message@ == "Failed to initialize updater: "@ + reason@,
        },
{
    match check {
        UpdateCheck::Found(info) => UpdateCheckResult::Available(info),
        UpdateCheck::Nothing => UpdateCheckResult::UpToDate,
        UpdateCheck::Failed(reason) => UpdateCheckResult::Error(
            String::from_str("Failed to check for updates: ").concat(reason.as_str()),
        ),
        UpdateCheck::NoUpdater(reason) => UpdateCheckResult::Error(
            String::from_str("Failed to initialize updater: ").concat(reason.as_str()),
        ),
    }
}

} // verus!
