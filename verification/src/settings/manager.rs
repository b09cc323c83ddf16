//! The settings manager: it keeps the hotkey registered with the OS and the OS
//! auto-start entry in step with the settings document.
//!
//! The manager calls no OS service itself. Each operation is a sequence of
//! steps: the manager names the next call to make, its host makes the call and
//! hands the outcome to [`SettingsManager::resume`], which names the next call
//! or ends the operation. The host keeps the manager to itself for the length
//! of an operation, so that operations never interleave.

use super::error::{AutoStartStep, SettingsError, SettingsFault, StoreStep};
use super::types::{default_settings, AppSettings};
use crate::shortcuts::keys::KeyCombination;
use crate::shortcuts::parser::{parse_shortcut, parsed};
use vstd::prelude::*;
use vstd::string::*;

verus! {

/// A call to the OS that the manager asks its host to make.
#[derive(Debug, Clone, Copy, PartialEq, Eq, Structural)]
pub enum OsCall {
    /// Ask the auto-start registrar whether auto-start is enabled.
    QueryAutoStart,
    /// Enable auto-start.
    EnableAutoStart,
    /// Disable auto-start.
    DisableAutoStart,
    /// Unregister this combination with the hotkey registrar.
    Unregister(KeyCombination),
    /// Register this combination with the hotkey registrar.
    Register(KeyCombination),
}

/// What an operation waits for, and what it goes on with.
#[derive(Debug, Clone, PartialEq, Eq)]
pub enum Pending {
    /// The auto-start status was asked for. `wanted` is the state to reach;
    /// `shortcut` is the shortcut string to apply afterwards, if any.
    AutoStartStatus { wanted: bool, shortcut: Option<String> },
    /// Auto-start is being enabled (`wanted`) or disabled.
    AutoStartSwitch { wanted: bool, shortcut: Option<String> },
    /// The combination registered so far is being unregistered; `fresh`, read
    /// from `text`, comes next.
    Unregister { fresh: KeyCombination, text: String },
    /// `fresh`, read from `text`, is being registered.
    Register { fresh: KeyCombination, text: String },
}

/// A `Pending` as a mathematical value.
pub enum PendingView {
    /// The auto-start status was asked for.
    AutoStartStatus { wanted: bool, shortcut: Option<Seq<char>> },
    /// Auto-start is being enabled or disabled.
    AutoStartSwitch { wanted: bool, shortcut: Option<Seq<char>> },
    /// The combination registered so far is being unregistered.
    Unregister { fresh: KeyCombination, text: Seq<char> },
    /// `fresh` is being registered.
    Register { fresh: KeyCombination, text: Seq<char> },
}

/// The next step of an operation.
#[derive(Debug, PartialEq, Eq)]
pub enum Step {
    /// Make `call`, then hand its outcome and `pending` to
    /// [`SettingsManager::resume`].
    Call { call: OsCall, pending: Pending },
    /// The operation is over, with this result.
    Done(Result<(), SettingsError>),
}

/// A `Step` as a mathematical value.
pub enum StepView {
    /// Make `call`, then resume with `pending`.
    Call { call: OsCall, pending: PendingView },
    /// The operation is over, with this result.
    Done(Result<(), SettingsFault>),
}

/// A shortcut string that may be absent, as a mathematical value.
pub open spec fn text_view(text: Option<String>) -> Option<Seq<char>> {
    match text {
        Some(text) => Some(text@),
        None => None,
    }
}

/// The outcome of a call, as a mathematical value.
pub open spec fn reply_view(reply: Result<bool, String>) -> Result<bool, Seq<char>> {
    match reply {
        Ok(flag) => Ok(flag),
        Err(reason) => Err(reason@),
    }
}

impl View for Pending {
    type V = PendingView;

    open spec fn view(&self) -> PendingView {
        match self {
            Pending::AutoStartStatus { wanted, shortcut } => PendingView::AutoStartStatus {
                wanted: *wanted,
                shortcut: text_view(*shortcut),
            },
            Pending::AutoStartSwitch { wanted, shortcut } => PendingView::AutoStartSwitch {
                wanted: *wanted,
                shortcut: text_view(*shortcut),
            },
            Pending::Unregister { fresh, text } => PendingView::Unregister {
                fresh: *fresh,
                text: text@,
            },
            Pending::Register { fresh, text } => PendingView::Register {
                fresh: *fresh,
                text: text@,
            },
        }
    }
}

impl View for Step {
    type V = StepView;

    open spec fn view(&self) -> StepView {
        match self {
            Step::Call { call, pending } => StepView::Call { call: *call, pending: pending@ },
            Step::Done(Ok(())) => StepView::Done(Ok(())),
            Step::Done(Err(error)) => StepView::Done(Err(error@)),
        }
    }
}

/// The call that brings auto-start to the state `wanted`.
pub open spec fn switch_call(wanted: bool) -> OsCall {
    if wanted {
        OsCall::EnableAutoStart
    } else {
        OsCall::DisableAutoStart
    }
}

/// The step of the auto-start registrar that [`switch_call`] stands for.
pub open spec fn switch_step(wanted: bool) -> AutoStartStep {
    if wanted {
        AutoStartStep::Enable
    } else {
        AutoStartStep::Disable
    }
}

/// The first step of applying the shortcut string `text` while `current` is
/// registered.
///
/// A string that cannot be parsed ends the operation. The combination that is
/// registered already needs no call. Any other is registered, after the one
/// registered so far, if there is one, has been unregistered.
pub open spec fn shortcut_step(current: Option<KeyCombination>, text: Seq<char>) -> StepView {
    match parsed(text) {
        Err(fault) => StepView::Done(Err(SettingsFault::Parse(fault))),
        Ok(fresh) => match current {
            Some(stale) => if stale == fresh {
                StepView::Done(Ok(()))
            } else {
                StepView::Call {
                    call: OsCall::Unregister(stale),
                    pending: PendingView::Unregister { fresh, text },
                }
            },
            None => StepView::Call {
                call: OsCall::Register(fresh),
                pending: PendingView::Register { fresh, text },
            },
        },
    }
}

/// The first step of registering the shortcut string `text` at process start:
/// nothing is unregistered, whatever is registered.
pub open spec fn initial_step(text: Seq<char>) -> StepView {
    match parsed(text) {
        Err(fault) => StepView::Done(Err(SettingsFault::Parse(fault))),
        Ok(fresh) => StepView::Call {
            call: OsCall::Register(fresh),
            pending: PendingView::Register { fresh, text },
        },
    }
}

/// The first step of bringing auto-start to the state `wanted`, and of applying
/// `shortcut` afterwards if there is one: the status is asked for.
pub open spec fn auto_start_step(wanted: bool, shortcut: Option<Seq<char>>) -> StepView {
    StepView::Call {
        call: OsCall::QueryAutoStart,
        pending: PendingView::AutoStartStatus { wanted, shortcut },
    }
}

/// The step that follows once auto-start is in the wanted state.
pub open spec fn after_auto_start(
    current: Option<KeyCombination>,
    shortcut: Option<Seq<char>>,
) -> StepView {
    match shortcut {
        Some(text) => shortcut_step(current, text),
        None => StepView::Done(Ok(())),
    }
}

/// The registered combination and the next step, once the call that `pending`
/// waited for has had the outcome `reply`.
///
/// - The status of auto-start: a failure ends the operation. The wanted state
///   needs no call. The other state is switched.
/// - Switching auto-start: a failure ends the operation, and the shortcut is
///   not attempted.
/// - Unregistering: the outcome is not looked at. The fresh combination is
///   registered next.
/// - Registering: on success the fresh combination is the registered one. On
///   failure the operation ends and the manager keeps what it held.
pub open spec fn resumed(
    current: Option<KeyCombination>,
    pending: PendingView,
    reply: Result<bool, Seq<char>>,
) -> (Option<KeyCombination>, StepView) {
    match pending {
        PendingView::AutoStartStatus { wanted, shortcut } => match reply {
            Err(reason) => (
                current,
                StepView::Done(
                    Err(SettingsFault::AutoStart { step: AutoStartStep::Status, reason }),
                ),
            ),
            Ok(enabled) => if enabled == wanted {
                (current, after_auto_start(current, shortcut))
            } else {
                (
                    current,
                    StepView::Call {
                        call: switch_call(wanted),
                        pending: PendingView::AutoStartSwitch { wanted, shortcut },
                    },
                )
            },
        },
        PendingView::AutoStartSwitch { wanted, shortcut } => match reply {
            Err(reason) => (
                current,
                StepView::Done(Err(SettingsFault::AutoStart { step: switch_step(wanted), reason })),
            ),
            Ok(_) => (current, after_auto_start(current, shortcut)),
        },
        PendingView::Unregister { fresh, text } => (
            current,
            StepView::Call {
                call: OsCall::Register(fresh),
                pending: PendingView::Register { fresh, text },
            },
        ),
        PendingView::Register { fresh, text } => match reply {
            Err(reason) => (
                current,
                StepView::Done(Err(SettingsFault::Registration { shortcut: text, reason })),
            ),
            Ok(_) => (Some(fresh), StepView::Done(Ok(()))),
        },
    }
}

/// What reading the settings document from the store gave.
#[derive(Debug, Clone, PartialEq, Eq)]
pub enum StoredDocument {
    /// The store could not be reached, for this reason.
    Unreachable(String),
    /// The store holds no document.
    Absent,
    /// The store holds a value that is no settings document, for this reason.
    Invalid(String),
    /// The store holds this document.
    Found(AppSettings),
}

/// What writing the settings document to the store gave.
#[derive(Debug, Clone, PartialEq, Eq)]
pub enum StoreWrite {
    /// The store could not be reached, for this reason.
    Unreachable(String),
    /// The document could not be turned into a value to store, for this
    /// reason.
    Unserializable(String),
    /// The document was handed to the store, which could not write it to
    /// disk, for this reason.
    NotPersisted(String),
    /// The document is on disk.
    Persisted,
}

/// The manager of the settings. It holds the combination that is registered
/// with the OS at present, and nothing else.
#[derive(Debug)]
pub struct SettingsManager {
    current_shortcut: Option<KeyCombination>,
}

impl View for SettingsManager {
    type V = Option<KeyCombination>;

    closed spec fn view(&self) -> Option<KeyCombination> {
        self.current_shortcut
    }
}

impl SettingsManager {
    /// A manager with no combination registered.
    pub fn new() -> (manager: SettingsManager)
        ensures
            manager@ is None,
    {
        SettingsManager { current_shortcut: None }
    }

    /// The combination that is registered at present.
    pub fn current_shortcut(&self) -> (current: Option<KeyCombination>)
        ensures
            current == self@,
    {
        self.current_shortcut
    }

    /// The settings to use, given what reading the store gave: the document
    /// found; the default document where the store holds none; an error where
    /// the store could not be reached or holds something else.
    pub fn load(stored: StoredDocument) -> (r: Result<AppSettings, SettingsError>)
        ensures
            match stored {
                StoredDocument::Found(document) => r == Ok::<AppSettings, SettingsError>(document),
                StoredDocument::Absent => r matches Ok(document) && document@
                    == default_settings(),
                StoredDocument::Invalid(reason) => r matches Err(error) && error@
                    == (SettingsFault::Store { step: StoreStep::Deserialize, reason: reason@ }),
                StoredDocument::Unreachable(reason) => r matches Err(error) && error@
                    == (SettingsFault::Store { step: StoreStep::Access, reason: reason@ }),
            },
    {
        match stored {
            StoredDocument::Found(document) => Ok(document),
            StoredDocument::Absent => Ok(AppSettings::default()),
            StoredDocument::Invalid(reason) => Err(
                SettingsError::Store { step: StoreStep::Deserialize, reason },
            ),
            StoredDocument::Unreachable(reason) => Err(
                SettingsError::Store { step: StoreStep::Access, reason },
            ),
        }
    }

    /// The result of saving, given what writing the store gave.
    pub fn save(written: StoreWrite) -> (r: Result<(), SettingsError>)
        ensures
            match written {
                StoreWrite::Persisted => r is Ok,
                StoreWrite::Unreachable(reason) => r matches Err(error) && error@
                    == (SettingsFault::Store { step: StoreStep::Access, reason: reason@ }),
                StoreWrite::Unserializable(reason) => r matches Err(error) && error@
                    == (SettingsFault::Store { step: StoreStep::Serialize, reason: reason@ }),
                StoreWrite::NotPersisted(reason) => r matches Err(error) && error@
                    == (SettingsFault::Store { step: StoreStep::Persist, reason: reason@ }),
            },
    {
        match written {
            StoreWrite::Persisted => Ok(()),
            StoreWrite::Unreachable(reason) => Err(
                SettingsError::Store { step: StoreStep::Access, reason },
            ),
            StoreWrite::Unserializable(reason) => Err(
                SettingsError::Store { step: StoreStep::Serialize, reason },
            ),
            StoreWrite::NotPersisted(reason) => Err(
                SettingsError::Store { step: StoreStep::Persist, reason },
            ),
        }
    }

    /// Begins to apply `settings`: first auto-start, then the shortcut. When
    /// the auto-start step fails, the shortcut is not attempted.
    pub fn apply(&self, settings: &AppSettings) -> (step: Step)
        ensures
            step@ == auto_start_step(
                settings.general.auto_startup,
                Some(settings@.toggle_launcher),
            ),
    {
        Step::Call {
            call: OsCall::QueryAutoStart,
            pending: Pending::AutoStartStatus {
                wanted: settings.general.auto_startup,
                shortcut: Some(settings.shortcuts.toggle_launcher.clone()),
            },
        }
    }

    /// Begins to apply the auto-start setting of `settings`, and nothing
    /// else. This is for process start, where the shortcut is registered by
    /// [`SettingsManager::register_initial_shortcut`].
    pub fn apply_auto_startup_only(&self, settings: &AppSettings) -> (step: Step)
        ensures
            step@ == auto_start_step(settings.general.auto_startup, None),
    {
        self.apply_auto_startup(settings.general.auto_startup)
    }

    /// Begins to bring auto-start to the state `enabled`.
    pub fn apply_auto_startup(&self, enabled: bool) -> (step: Step)
        ensures
            step@ == auto_start_step(enabled, None),
    {
        Step::Call {
            call: OsCall::QueryAutoStart,
            pending: Pending::AutoStartStatus { wanted: enabled, shortcut: None },
        }
    }

    /// Begins to apply the shortcut string `shortcut_str`.
    pub fn apply_shortcut(&self, shortcut_str: &str) -> (step: Step)
        ensures
            step@ == shortcut_step(self@, shortcut_str@),
    {
        match parse_shortcut(shortcut_str) {
            Err(error) => Step::Done(Err(SettingsError::Parse(error))),
            Ok(fresh) => match self.current_shortcut {
                Some(stale) => {
                    if stale == fresh {
                        Step::Done(Ok(()))
                    } else {
                        Step::Call {
                            call: OsCall::Unregister(stale),
                            pending: Pending::Unregister {
                                fresh,
                                text: String::from_str(shortcut_str),
                            },
                        }
                    }
                },
                None => Step::Call {
                    call: OsCall::Register(fresh),
                    pending: Pending::Register { fresh, text: String::from_str(shortcut_str) },
                },
            },
        }
    }

    /// Begins to register the shortcut string `shortcut_str` at process
    /// start. Nothing is unregistered first.
    pub fn register_initial_shortcut(&self, shortcut_str: &str) -> (step: Step)
        ensures
            step@ == initial_step(shortcut_str@),
    {
        match parse_shortcut(shortcut_str) {
            Err(error) => Step::Done(Err(SettingsError::Parse(error))),
            Ok(fresh) => Step::Call {
                call: OsCall::Register(fresh),
                pending: Pending::Register { fresh, text: String::from_str(shortcut_str) },
            },
        }
    }

    /// Goes on with an operation: `reply` is the outcome of the call that
    /// `pending` waited for. `Ok` holds the answer of a query; for any other
    /// call its content is not looked at.
    pub fn resume(&mut self, pending: Pending, reply: Result<bool, String>) -> (step: Step)
        ensures
            (final(self)@, step@) == resumed(old(self)@, pending@, reply_view(reply)),
    {
        match pending {
            Pending::AutoStartStatus { wanted, shortcut } => match reply {
                Err(reason) => Step::Done(
                    Err(SettingsError::AutoStart { step: AutoStartStep::Status, reason }),
                ),
                Ok(enabled) => {
                    if enabled == wanted {
                        self.after_auto_start(shortcut)
                    } else {
                        Step::Call {
                            call: if wanted {
                                OsCall::EnableAutoStart
                            } else {
                                OsCall::DisableAutoStart
                            },
                            pending: Pending::AutoStartSwitch { wanted, shortcut },
                        }
                    }
                },
            },
            Pending::AutoStartSwitch { wanted, shortcut } => match reply {
                Err(reason) => Step::Done(
                    Err(
                        SettingsError::AutoStart {
                            step: if wanted {
                                AutoStartStep::Enable
                            } else {
                                AutoStartStep::Disable
                            },
                            reason,
                        },
                    ),
                ),
                Ok(_) => self.after_auto_start(shortcut),
            },
            Pending::Unregister { fresh, text } => Step::Call {
                call: OsCall::Register(fresh),
                pending: Pending::Register { fresh, text },
            },
            Pending::Register { fresh, text } => match reply {
                Err(reason) => Step::Done(
                    Err(SettingsError::Registration { shortcut: text, reason }),
                ),
                Ok(_) => {
                    self.current_shortcut = Some(fresh);
                    Step::Done(Ok(()))
                },
            },
        }
    }

    /// The step that follows once auto-start is in the wanted state.
    fn after_auto_start(&self, shortcut: Option<String>) -> (step: Step)
        ensures
            step@ == after_auto_start(self@, text_view(shortcut)),
    {
        match shortcut {
            Some(text) => self.apply_shortcut(text.as_str()),
            None => Step::Done(Ok(())),
        }
    }

    /// Whether auto-start is enabled, given what the OS answered. The answer
    /// is handed on as it is, so that it shows the state of the OS and not
    /// that of the settings document.
    pub fn get_auto_startup_status(reply: Result<bool, String>) -> (r: Result<
        bool,
        SettingsError,
    >)
        ensures
            match reply {
                Ok(enabled) => r == Ok::<bool, SettingsError>(enabled),
                Err(reason) => r matches Err(error) && error@ == (SettingsFault::AutoStart {
                    step: AutoStartStep::Status,
                    reason: reason@,
                }),
            },
    {
        match reply {
            Ok(enabled) => Ok(enabled),
            Err(reason) => Err(SettingsError::AutoStart { step: AutoStartStep::Status, reason }),
        }
    }
}

} // verus!
