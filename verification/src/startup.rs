//! What to do at process start, one task after another.
//!
//! The shortcut of the settings is registered. Where that fails, or where the
//! settings could not be loaded, the default shortcut is registered in its
//! place, so that the application has a hotkey whenever the OS grants one.
//! The auto-start setting is applied last, and only where settings were
//! loaded.

use vstd::prelude::*;

verus! {

/// A task of process start, for the host to carry out.
#[derive(Debug, Clone, Copy, PartialEq, Eq, Structural)]
pub enum StartupTask {
    /// Register the shortcut of the loaded settings as the initial one.
    RegisterConfigured,
    /// Register the default shortcut as the initial one.
    RegisterDefault,
    /// Apply the auto-start setting of the loaded settings, and nothing else.
    ApplyAutoStartup,
    /// Nothing is left to do.
    Finish,
}

/// How far process start has come.
#[derive(Debug, Clone, Copy, PartialEq, Eq, Structural)]
pub enum Startup {
    /// The shortcut of the settings is being registered.
    Configured,
    /// The default shortcut is being registered. `loaded` tells whether
    /// settings were loaded.
    Fallback { loaded: bool },
    /// The auto-start setting is being applied.
    AutoStart,
    /// Process start is over.
    Finished,
}

/// The stage and the task that process start begins with.
pub open spec fn begun(loaded: bool) -> (Startup, StartupTask) {
    if loaded {
        (Startup::Configured, StartupTask::RegisterConfigured)
    } else {
        (Startup::Fallback { loaded: false }, StartupTask::RegisterDefault)
    }
}

/// The stage and the task that follow `stage`, once its task has succeeded
/// or failed.
pub open spec fn advanced(stage: Startup, succeeded: bool) -> (Startup, StartupTask) {
    match stage {
        Startup::Configured => if succeeded {
            (Startup::AutoStart, StartupTask::ApplyAutoStartup)
        } else {
            (Startup::Fallback { loaded: true }, StartupTask::RegisterDefault)
        },
        Startup::Fallback { loaded } => if loaded {
            (Startup::AutoStart, StartupTask::ApplyAutoStartup)
        } else {
            (Startup::Finished, StartupTask::Finish)
        },
        Startup::AutoStart => (Startup::Finished, StartupTask::Finish),
        Startup::Finished => (Startup::Finished, StartupTask::Finish),
    }
}

/// The tasks of a process start in the order in which they are carried out,
/// where `outcomes` tells of each in turn whether it succeeded.
pub open spec fn tasks(stage: Startup, task: StartupTask, outcomes: Seq<bool>) -> Seq<StartupTask>
    decreases outcomes.len(),
{
    if task == StartupTask::Finish || outcomes.len() == 0 {
        seq![task]
    } else {
        let (next, then) = advanced(stage, outcomes.first());
        seq![task] + tasks(next, then, outcomes.drop_first())
    }
}

impl Startup {
    /// Begins process start. `loaded` tells whether the settings could be
    /// loaded.
    pub fn begin(loaded: bool) -> (r: (Startup, StartupTask))
        ensures
            r == begun(loaded),
    {
        if loaded {
            (Startup::Configured, StartupTask::RegisterConfigured)
        } else {
            (Startup::Fallback { loaded: false }, StartupTask::RegisterDefault)
        }
    }

    /// Goes on with process start. `succeeded` tells whether the task of this
    /// stage succeeded.
    pub fn advance(self, succeeded: bool) -> (r: (Startup, StartupTask))
        ensures
            r == advanced(self, succeeded),
    {
        match self {
            Startup::Configured => {
                if succeeded {
                    (Startup::AutoStart, StartupTask::ApplyAutoStartup)
                } else {
                    (Startup::Fallback { loaded: true }, StartupTask::RegisterDefault)
                }
            },
            Startup::Fallback { loaded } => {
                if loaded {
                    (Startup::AutoStart, StartupTask::ApplyAutoStartup)
                } else {
                    (Startup::Finished, StartupTask::Finish)
                }
            },
            Startup::AutoStart => (Startup::Finished, StartupTask::Finish),
            Startup::Finished => (Startup::Finished, StartupTask::Finish),
        }
    }
}

/// The tasks of process start, for every course that it can take.
///
/// - Settings loaded and their shortcut registered: the auto-start setting
///   follows.
/// - Settings loaded and their shortcut refused: the default shortcut is
///   registered next, and the auto-start setting follows whether or not that
///   succeeded.
/// - No settings loaded: the default shortcut is registered, and nothing
///   else is done.
pub proof fn lemma_startup_tasks(loaded: bool, outcomes: Seq<bool>)
    requires
        outcomes.len() >= 3,
    ensures
        tasks(begun(loaded).0, begun(loaded).1, outcomes) == if !loaded {
            seq![StartupTask::RegisterDefault, StartupTask::Finish]
        } else if outcomes[0] {
            seq![
                StartupTask::RegisterConfigured,
                StartupTask::ApplyAutoStartup,
                StartupTask::Finish,
            ]
        } else {
            seq![
                StartupTask::RegisterConfigured,
                StartupTask::RegisterDefault,
                StartupTask::ApplyAutoStartup,
                StartupTask::Finish,
            ]
        },
{
    reveal_with_fuel(tasks, 5);
    let all = tasks(begun(loaded).0, begun(loaded).1, outcomes);
    assert(outcomes.drop_first().first() == outcomes[1]);
    assert(outcomes.drop_first().drop_first().first() == outcomes[2]);
    if !loaded {
        assert(all =~= seq![StartupTask::RegisterDefault, StartupTask::Finish]);
    } else if outcomes[0] {
        assert(all =~= seq![
            StartupTask::RegisterConfigured,
            StartupTask::ApplyAutoStartup,
            StartupTask::Finish,
        ]);
    } else {
        assert(all =~= seq![
            StartupTask::RegisterConfigured,
            StartupTask::RegisterDefault,
            StartupTask::ApplyAutoStartup,
            StartupTask::Finish,
        ]);
    }
}

} // verus!
