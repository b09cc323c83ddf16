use qwik_ask::updater::{check_for_updates, UpdateCheck, UpdateCheckResult, UpdateInfo};

#[test]
fn an_update_found_is_available() {
    let info = UpdateInfo {
        version: "1.2.3".to_string(),
        body: Some("Fixes".to_string()),
        date: None,
    };
    assert_eq!(
        check_for_updates(UpdateCheck::Found(info.clone())),
        UpdateCheckResult::Available(info)
    );
}

#[test]
fn nothing_found_is_up_to_date() {
    assert_eq!(check_for_updates(UpdateCheck::Nothing), UpdateCheckResult::UpToDate);
}

#[test]
fn update_failures_in_words() {
    assert_eq!(
        check_for_updates(UpdateCheck::Failed("timed out".to_string())),
        UpdateCheckResult::Error("Failed to check for updates: timed out".to_string())
    );
    assert_eq!(
        check_for_updates(UpdateCheck::NoUpdater("no endpoint".to_string())),
        UpdateCheckResult::Error("Failed to initialize updater: no endpoint".to_string())
    );
}
