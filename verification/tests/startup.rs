use qwik_ask::startup::{Startup, StartupTask};

fn tasks(loaded: bool, outcomes: &[bool]) -> Vec<StartupTask> {
    let (mut stage, mut task) = Startup::begin(loaded);
    let mut done = vec![task];
    let mut outcomes = outcomes.iter();
    while task != StartupTask::Finish {
        let succeeded = *outcomes.next().unwrap();
        (stage, task) = stage.advance(succeeded);
        done.push(task);
    }
    assert_eq!(stage, Startup::Finished);
    done
}

#[test]
fn startup_with_a_good_shortcut() {
    for auto_start in [true, false] {
        assert_eq!(
            tasks(true, &[true, auto_start]),
            vec![
                StartupTask::RegisterConfigured,
                StartupTask::ApplyAutoStartup,
                StartupTask::Finish,
            ]
        );
    }
}

#[test]
fn startup_falls_back_to_the_default_shortcut() {
    for fallback in [true, false] {
        for auto_start in [true, false] {
            assert_eq!(
                tasks(true, &[false, fallback, auto_start]),
                vec![
                    StartupTask::RegisterConfigured,
                    StartupTask::RegisterDefault,
                    StartupTask::ApplyAutoStartup,
                    StartupTask::Finish,
                ]
            );
        }
    }
}

#[test]
fn startup_without_settings_registers_the_default_and_stops() {
    for fallback in [true, false] {
        assert_eq!(
            tasks(false, &[fallback]),
            vec![StartupTask::RegisterDefault, StartupTask::Finish]
        );
    }
}

#[test]
fn startup_stage_by_stage() {
    assert_eq!(Startup::begin(true), (Startup::Configured, StartupTask::RegisterConfigured));
    assert_eq!(
        Startup::begin(false),
        (Startup::Fallback { loaded: false }, StartupTask::RegisterDefault)
    );
    assert_eq!(
        Startup::Configured.advance(false),
        (Startup::Fallback { loaded: true }, StartupTask::RegisterDefault)
    );
    assert_eq!(
        Startup::Fallback { loaded: true }.advance(false),
        (Startup::AutoStart, StartupTask::ApplyAutoStartup)
    );
    assert_eq!(Startup::AutoStart.advance(false), (Startup::Finished, StartupTask::Finish));
    assert_eq!(Startup::Finished.advance(true), (Startup::Finished, StartupTask::Finish));
}
