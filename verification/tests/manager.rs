use qwik_ask::settings::error::{AutoStartStep, SettingsError, StoreStep};
use qwik_ask::settings::manager::{
    OsCall, Pending, SettingsManager, Step, StoreWrite, StoredDocument,
};
use qwik_ask::settings::types::{
    AppSettings, GeneralSettings, LlmProvider, LlmSettings, ShortcutSettings, Theme,
};
use qwik_ask::shortcuts::keys::KeyCombination;
use qwik_ask::shortcuts::parser::{parse_shortcut, ParseError};

/// An OS in memory: it notes every call and keeps what the calls set.
struct Os {
    calls: Vec<OsCall>,
    auto_start: bool,
    registered: Vec<KeyCombination>,
    taken: Vec<KeyCombination>,
    query_fails: bool,
    switch_fails: bool,
    unregister_fails: bool,
}

impl Os {
    fn new() -> Os {
        Os {
            calls: Vec::new(),
            auto_start: false,
            registered: Vec::new(),
            taken: Vec::new(),
            query_fails: false,
            switch_fails: false,
            unregister_fails: false,
        }
    }

    fn perform(&mut self, call: OsCall) -> Result<bool, String> {
        self.calls.push(call);
        match call {
            OsCall::QueryAutoStart => {
                if self.query_fails {
                    Err("registry unavailable".to_string())
                } else {
                    Ok(self.auto_start)
                }
            }
            OsCall::EnableAutoStart | OsCall::DisableAutoStart => {
                if self.switch_fails {
                    Err("access denied".to_string())
                } else {
                    self.auto_start = call == OsCall::EnableAutoStart;
                    Ok(true)
                }
            }
            OsCall::Unregister(combination) => {
                if self.unregister_fails || !self.registered.contains(&combination) {
                    Err("not registered".to_string())
                } else {
                    self.registered.retain(|held| *held != combination);
                    Ok(true)
                }
            }
            OsCall::Register(combination) => {
                if self.taken.contains(&combination) || self.registered.contains(&combination) {
                    Err("already registered".to_string())
                } else {
                    self.registered.push(combination);
                    Ok(true)
                }
            }
        }
    }

    fn calls_since(&self, mark: usize) -> Vec<OsCall> {
        self.calls[mark..].to_vec()
    }
}

fn drive(manager: &mut SettingsManager, os: &mut Os, first: Step) -> Result<(), SettingsError> {
    let mut step = first;
    loop {
        match step {
            Step::Done(result) => return result,
            Step::Call { call, pending } => {
                let reply = os.perform(call);
                step = manager.resume(pending, reply);
            }
        }
    }
}

fn apply_shortcut(manager: &mut SettingsManager, os: &mut Os, text: &str) -> Result<(), SettingsError> {
    let first = manager.apply_shortcut(text);
    drive(manager, os, first)
}

fn register_initial(manager: &mut SettingsManager, os: &mut Os, text: &str) -> Result<(), SettingsError> {
    let first = manager.register_initial_shortcut(text);
    drive(manager, os, first)
}

fn apply_auto_startup(manager: &mut SettingsManager, os: &mut Os, enabled: bool) -> Result<(), SettingsError> {
    let first = manager.apply_auto_startup(enabled);
    drive(manager, os, first)
}

fn apply(manager: &mut SettingsManager, os: &mut Os, settings: &AppSettings) -> Result<(), SettingsError> {
    let first = manager.apply(settings);
    drive(manager, os, first)
}

fn combination(text: &str) -> KeyCombination {
    parse_shortcut(text).unwrap()
}

fn settings(auto_startup: bool, shortcut: &str) -> AppSettings {
    let mut settings = AppSettings::default();
    settings.general.auto_startup = auto_startup;
    settings.shortcuts.toggle_launcher = shortcut.to_string();
    settings
}

#[test]
fn a_new_manager_holds_no_shortcut() {
    assert_eq!(SettingsManager::new().current_shortcut(), None);
}

#[test]
fn applying_a_shortcut_twice_registers_it_once() {
    let mut manager = SettingsManager::new();
    let mut os = Os::new();
    let space = combination("Alt+Shift+Space");

    assert_eq!(apply_shortcut(&mut manager, &mut os, "Alt+Shift+Space"), Ok(()));
    assert_eq!(os.calls, vec![OsCall::Register(space)]);
    assert_eq!(manager.current_shortcut(), Some(space));

    let mark = os.calls.len();
    assert_eq!(apply_shortcut(&mut manager, &mut os, "Alt+Shift+Space"), Ok(()));
    assert_eq!(os.calls_since(mark), vec![]);
    assert_eq!(manager.current_shortcut(), Some(space));

    // The same combination written otherwise is the same combination.
    assert_eq!(apply_shortcut(&mut manager, &mut os, " shift + ALT + space "), Ok(()));
    assert_eq!(os.calls_since(mark), vec![]);
    assert_eq!(os.registered, vec![space]);
}

#[test]
fn applying_another_shortcut_unregisters_the_old_one_first() {
    let mut manager = SettingsManager::new();
    let mut os = Os::new();
    let space = combination("Alt+Shift+Space");
    let k = combination("Ctrl+K");

    assert_eq!(apply_shortcut(&mut manager, &mut os, "Alt+Shift+Space"), Ok(()));
    let mark = os.calls.len();
    assert_eq!(apply_shortcut(&mut manager, &mut os, "Ctrl+K"), Ok(()));
    assert_eq!(os.calls_since(mark), vec![OsCall::Unregister(space), OsCall::Register(k)]);
    assert_eq!(manager.current_shortcut(), Some(k));
    assert_eq!(os.registered, vec![k]);
}

#[test]
fn a_failed_unregister_does_not_stop_the_registration() {
    let mut manager = SettingsManager::new();
    let mut os = Os::new();
    let space = combination("Alt+Shift+Space");
    let k = combination("Ctrl+K");

    assert_eq!(apply_shortcut(&mut manager, &mut os, "Alt+Shift+Space"), Ok(()));
    os.unregister_fails = true;
    let mark = os.calls.len();
    assert_eq!(apply_shortcut(&mut manager, &mut os, "Ctrl+K"), Ok(()));
    assert_eq!(os.calls_since(mark), vec![OsCall::Unregister(space), OsCall::Register(k)]);
    assert_eq!(manager.current_shortcut(), Some(k));
    // The OS has kept the old one: the manager does not know of it.
    assert_eq!(os.registered, vec![space, k]);
}

#[test]
fn a_refused_registration_is_reported_and_keeps_the_state() {
    let mut manager = SettingsManager::new();
    let mut os = Os::new();
    let space = combination("Alt+Shift+Space");
    let k = combination("Ctrl+K");
    os.taken.push(k);

    assert_eq!(
        apply_shortcut(&mut manager, &mut os, "Ctrl+K"),
        Err(SettingsError::Registration {
            shortcut: "Ctrl+K".to_string(),
            reason: "already registered".to_string(),
        })
    );
    assert_eq!(os.calls, vec![OsCall::Register(k)]);
    assert_eq!(manager.current_shortcut(), None);

    assert_eq!(apply_shortcut(&mut manager, &mut os, "Alt+Shift+Space"), Ok(()));
    let mark = os.calls.len();
    let refused = apply_shortcut(&mut manager, &mut os, "Ctrl+K");
    assert_eq!(
        refused.unwrap_err().message(),
        "Failed to register shortcut 'Ctrl+K': already registered"
    );
    assert_eq!(os.calls_since(mark), vec![OsCall::Unregister(space), OsCall::Register(k)]);
    assert_eq!(manager.current_shortcut(), Some(space));
}

#[test]
fn an_unparsed_shortcut_makes_no_call() {
    let mut manager = SettingsManager::new();
    let mut os = Os::new();
    assert_eq!(
        apply_shortcut(&mut manager, &mut os, "Space"),
        Err(SettingsError::Parse(ParseError::MissingModifier))
    );
    assert_eq!(
        apply_shortcut(&mut manager, &mut os, "Ctrl+Alt"),
        Err(SettingsError::Parse(ParseError::MissingKey))
    );
    assert_eq!(
        apply_shortcut(&mut manager, &mut os, "Alt+Blorp"),
        Err(SettingsError::Parse(ParseError::UnknownKey("blorp".to_string())))
    );
    assert_eq!(
        register_initial(&mut manager, &mut os, "Alt+Blorp"),
        Err(SettingsError::Parse(ParseError::UnknownKey("blorp".to_string())))
    );
    assert_eq!(os.calls, vec![]);
    assert_eq!(manager.current_shortcut(), None);
}

#[test]
fn the_initial_shortcut_is_registered_without_unregistering() {
    let mut manager = SettingsManager::new();
    let mut os = Os::new();
    let space = combination("Alt+Shift+Space");
    let k = combination("Ctrl+K");

    assert_eq!(register_initial(&mut manager, &mut os, "Alt+Shift+Space"), Ok(()));
    assert_eq!(os.calls, vec![OsCall::Register(space)]);
    assert_eq!(manager.current_shortcut(), Some(space));

    // Nothing is compared and nothing is unregistered, whatever is held.
    let mark = os.calls.len();
    assert_eq!(register_initial(&mut manager, &mut os, "Ctrl+K"), Ok(()));
    assert_eq!(os.calls_since(mark), vec![OsCall::Register(k)]);
    assert_eq!(manager.current_shortcut(), Some(k));

    let mark = os.calls.len();
    assert_eq!(
        register_initial(&mut manager, &mut os, "Ctrl+K"),
        Err(SettingsError::Registration {
            shortcut: "Ctrl+K".to_string(),
            reason: "already registered".to_string(),
        })
    );
    assert_eq!(os.calls_since(mark), vec![OsCall::Register(k)]);
    assert_eq!(manager.current_shortcut(), Some(k));
}

#[test]
fn auto_start_in_the_wanted_state_makes_no_call() {
    let mut manager = SettingsManager::new();
    let mut os = Os::new();
    os.auto_start = true;
    assert_eq!(apply_auto_startup(&mut manager, &mut os, true), Ok(()));
    assert_eq!(os.calls, vec![OsCall::QueryAutoStart]);
    assert!(os.auto_start);

    let mut os = Os::new();
    assert_eq!(apply_auto_startup(&mut manager, &mut os, false), Ok(()));
    assert_eq!(os.calls, vec![OsCall::QueryAutoStart]);
    assert!(!os.auto_start);
}

#[test]
fn auto_start_in_the_other_state_is_switched_once() {
    let mut manager = SettingsManager::new();
    let mut os = Os::new();
    assert_eq!(apply_auto_startup(&mut manager, &mut os, true), Ok(()));
    assert_eq!(os.calls, vec![OsCall::QueryAutoStart, OsCall::EnableAutoStart]);
    assert!(os.auto_start);

    let mark = os.calls.len();
    assert_eq!(apply_auto_startup(&mut manager, &mut os, false), Ok(()));
    assert_eq!(os.calls_since(mark), vec![OsCall::QueryAutoStart, OsCall::DisableAutoStart]);
    assert!(!os.auto_start);
}

#[test]
fn auto_start_failures_are_reported() {
    let mut manager = SettingsManager::new();
    let mut os = Os::new();
    os.switch_fails = true;
    assert_eq!(
        apply_auto_startup(&mut manager, &mut os, true),
        Err(SettingsError::AutoStart {
            step: AutoStartStep::Enable,
            reason: "access denied".to_string(),
        })
    );
    os.auto_start = true;
    let failed = apply_auto_startup(&mut manager, &mut os, false).unwrap_err();
    assert_eq!(
        failed,
        SettingsError::AutoStart { step: AutoStartStep::Disable, reason: "access denied".to_string() }
    );
    assert_eq!(failed.message(), "Failed to disable autostart: access denied");

    let mut os = Os::new();
    os.query_fails = true;
    let failed = apply_auto_startup(&mut manager, &mut os, false).unwrap_err();
    assert_eq!(
        failed,
        SettingsError::AutoStart {
            step: AutoStartStep::Status,
            reason: "registry unavailable".to_string(),
        }
    );
    assert_eq!(failed.message(), "Failed to check autostart status: registry unavailable");
    assert_eq!(os.calls, vec![OsCall::QueryAutoStart]);
}

#[test]
fn apply_does_auto_start_first_and_the_shortcut_second() {
    let mut manager = SettingsManager::new();
    let mut os = Os::new();
    let k = combination("Ctrl+K");
    assert_eq!(apply(&mut manager, &mut os, &settings(true, "Ctrl+K")), Ok(()));
    assert_eq!(
        os.calls,
        vec![OsCall::QueryAutoStart, OsCall::EnableAutoStart, OsCall::Register(k)]
    );
    assert_eq!(manager.current_shortcut(), Some(k));

    // Applied again, the same document needs the query and nothing else.
    let mark = os.calls.len();
    assert_eq!(apply(&mut manager, &mut os, &settings(true, "Ctrl+K")), Ok(()));
    assert_eq!(os.calls_since(mark), vec![OsCall::QueryAutoStart]);

    let mark = os.calls.len();
    let space = combination("Alt+Shift+Space");
    assert_eq!(apply(&mut manager, &mut os, &settings(false, "Alt+Shift+Space")), Ok(()));
    assert_eq!(
        os.calls_since(mark),
        vec![
            OsCall::QueryAutoStart,
            OsCall::DisableAutoStart,
            OsCall::Unregister(k),
            OsCall::Register(space),
        ]
    );
    assert_eq!(manager.current_shortcut(), Some(space));
}

#[test]
fn apply_stops_when_auto_start_fails() {
    let mut manager = SettingsManager::new();
    let mut os = Os::new();
    os.switch_fails = true;
    assert_eq!(
        apply(&mut manager, &mut os, &settings(true, "Ctrl+K")),
        Err(SettingsError::AutoStart {
            step: AutoStartStep::Enable,
            reason: "access denied".to_string(),
        })
    );
    assert_eq!(os.calls, vec![OsCall::QueryAutoStart, OsCall::EnableAutoStart]);
    assert_eq!(manager.current_shortcut(), None);

    // Not even a shortcut that cannot be parsed is looked at.
    let mark = os.calls.len();
    assert_eq!(
        apply(&mut manager, &mut os, &settings(true, "Blorp")),
        Err(SettingsError::AutoStart {
            step: AutoStartStep::Enable,
            reason: "access denied".to_string(),
        })
    );
    assert_eq!(os.calls_since(mark), vec![OsCall::QueryAutoStart, OsCall::EnableAutoStart]);
}

#[test]
fn apply_reports_a_bad_shortcut_after_auto_start_is_done() {
    let mut manager = SettingsManager::new();
    let mut os = Os::new();
    assert_eq!(
        apply(&mut manager, &mut os, &settings(true, "Space")),
        Err(SettingsError::Parse(ParseError::MissingModifier))
    );
    assert_eq!(os.calls, vec![OsCall::QueryAutoStart, OsCall::EnableAutoStart]);
    assert!(os.auto_start);
}

#[test]
fn apply_auto_startup_only_leaves_the_shortcut_alone() {
    let mut manager = SettingsManager::new();
    let mut os = Os::new();
    let first = manager.apply_auto_startup_only(&settings(true, "Ctrl+K"));
    assert_eq!(
        first,
        Step::Call {
            call: OsCall::QueryAutoStart,
            pending: Pending::AutoStartStatus { wanted: true, shortcut: None },
        }
    );
    assert_eq!(drive(&mut manager, &mut os, first), Ok(()));
    assert_eq!(os.calls, vec![OsCall::QueryAutoStart, OsCall::EnableAutoStart]);
    assert_eq!(manager.current_shortcut(), None);
}

#[test]
fn the_steps_one_by_one() {
    let mut manager = SettingsManager::new();
    let space = combination("Alt+Shift+Space");
    let k = combination("Ctrl+K");

    let step = manager.apply(&settings(false, "Alt+Shift+Space"));
    let pending = Pending::AutoStartStatus {
        wanted: false,
        shortcut: Some("Alt+Shift+Space".to_string()),
    };
    assert_eq!(step, Step::Call { call: OsCall::QueryAutoStart, pending: pending.clone() });

    let step = manager.resume(pending, Ok(true));
    let pending = Pending::AutoStartSwitch {
        wanted: false,
        shortcut: Some("Alt+Shift+Space".to_string()),
    };
    assert_eq!(step, Step::Call { call: OsCall::DisableAutoStart, pending: pending.clone() });

    let step = manager.resume(pending, Ok(false));
    let pending = Pending::Register { fresh: space, text: "Alt+Shift+Space".to_string() };
    assert_eq!(step, Step::Call { call: OsCall::Register(space), pending: pending.clone() });
    assert_eq!(manager.current_shortcut(), None);

    assert_eq!(manager.resume(pending, Ok(false)), Step::Done(Ok(())));
    assert_eq!(manager.current_shortcut(), Some(space));

    let step = manager.apply_shortcut("Ctrl+K");
    let pending = Pending::Unregister { fresh: k, text: "Ctrl+K".to_string() };
    assert_eq!(step, Step::Call { call: OsCall::Unregister(space), pending: pending.clone() });

    let step = manager.resume(pending, Err("gone".to_string()));
    let pending = Pending::Register { fresh: k, text: "Ctrl+K".to_string() };
    assert_eq!(step, Step::Call { call: OsCall::Register(k), pending: pending.clone() });
    assert_eq!(manager.current_shortcut(), Some(space));

    assert_eq!(
        manager.resume(pending, Err("taken".to_string())),
        Step::Done(Err(SettingsError::Registration {
            shortcut: "Ctrl+K".to_string(),
            reason: "taken".to_string(),
        }))
    );
    assert_eq!(manager.current_shortcut(), Some(space));
}

#[test]
fn many_shortcuts_in_a_row_leave_the_last_one() {
    let mut manager = SettingsManager::new();
    let mut os = Os::new();
    let texts = ["Ctrl+1", "Ctrl+2", "Alt+3", "Shift+4", "Win+5", "Ctrl+Alt+6"];
    for text in texts {
        assert_eq!(apply_shortcut(&mut manager, &mut os, text), Ok(()));
        assert_eq!(manager.current_shortcut(), Some(combination(text)));
        assert_eq!(os.registered, vec![combination(text)]);
    }
    let mut expected = vec![OsCall::Register(combination("Ctrl+1"))];
    for pair in texts.windows(2) {
        expected.push(OsCall::Unregister(combination(pair[0])));
        expected.push(OsCall::Register(combination(pair[1])));
    }
    assert_eq!(os.calls, expected);
}

#[test]
fn load_returns_what_the_store_holds() {
    let custom = AppSettings {
        general: GeneralSettings { auto_startup: true, theme: Theme::Light },
        shortcuts: ShortcutSettings { toggle_launcher: "Ctrl+Alt+Q".to_string() },
        llm: LlmSettings {
            provider: LlmProvider::OpenAI,
            api_key: "test-api-key".to_string(),
            model: "gpt-4o".to_string(),
            base_url: Some("http://localhost:1234/v1".to_string()),
            system_prompt: "Custom prompt".to_string(),
        },
    };
    assert_eq!(SettingsManager::load(StoredDocument::Found(custom.clone())), Ok(custom));
}

#[test]
fn load_of_an_empty_store_returns_the_defaults() {
    assert_eq!(SettingsManager::load(StoredDocument::Absent), Ok(AppSettings::default()));
}

#[test]
fn load_reports_a_store_that_fails() {
    let invalid = SettingsManager::load(StoredDocument::Invalid("missing field `general`".to_string()));
    assert_eq!(
        invalid,
        Err(SettingsError::Store {
            step: StoreStep::Deserialize,
            reason: "missing field `general`".to_string(),
        })
    );
    assert_eq!(
        invalid.unwrap_err().message(),
        "Failed to deserialize settings: missing field `general`"
    );
    let unreachable = SettingsManager::load(StoredDocument::Unreachable("no such directory".to_string()));
    assert_eq!(
        unreachable,
        Err(SettingsError::Store {
            step: StoreStep::Access,
            reason: "no such directory".to_string(),
        })
    );
    assert_eq!(
        unreachable.unwrap_err().message(),
        "Failed to access store: no such directory"
    );
}

#[test]
fn save_reports_what_the_store_did() {
    assert_eq!(SettingsManager::save(StoreWrite::Persisted), Ok(()));
    let cases = [
        (
            StoreWrite::Unreachable("locked".to_string()),
            StoreStep::Access,
            "Failed to access store: locked",
        ),
        (
            StoreWrite::Unserializable("locked".to_string()),
            StoreStep::Serialize,
            "Failed to serialize settings: locked",
        ),
        (
            StoreWrite::NotPersisted("locked".to_string()),
            StoreStep::Persist,
            "Failed to persist settings: locked",
        ),
    ];
    for (written, step, message) in cases {
        let error = SettingsManager::save(written).unwrap_err();
        assert_eq!(error, SettingsError::Store { step, reason: "locked".to_string() });
        assert_eq!(error.message(), message);
    }
}

#[test]
fn the_auto_start_status_is_handed_on() {
    assert_eq!(SettingsManager::get_auto_startup_status(Ok(true)), Ok(true));
    assert_eq!(SettingsManager::get_auto_startup_status(Ok(false)), Ok(false));
    assert_eq!(
        SettingsManager::get_auto_startup_status(Err("no registry".to_string())),
        Err(SettingsError::AutoStart {
            step: AutoStartStep::Status,
            reason: "no registry".to_string(),
        })
    );
}

#[test]
fn settings_errors_in_words() {
    assert_eq!(
        SettingsError::Parse(ParseError::MissingKey).message(),
        "Shortcut must have a non-modifier key"
    );
    assert_eq!(
        SettingsError::AutoStart { step: AutoStartStep::Enable, reason: "denied".to_string() }
            .message(),
        "Failed to enable autostart: denied"
    );
    assert_eq!(
        SettingsError::Registration { shortcut: "Alt+Q".to_string(), reason: "x".to_string() }
            .message(),
        "Failed to register shortcut 'Alt+Q': x"
    );
}
