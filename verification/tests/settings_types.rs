use qwik_ask::settings::types::{
    default_model, default_system_prompt, AppSettings, GeneralSettings, LlmProvider, LlmSettings,
    ShortcutSettings, Theme, DEFAULT_MODEL, DEFAULT_SHORTCUT, DEFAULT_SYSTEM_PROMPT,
};

#[test]
fn test_app_settings_default_values() {
    let settings = AppSettings::default();

    // General defaults
    assert!(!settings.general.auto_startup);
    assert!(matches!(settings.general.theme, Theme::Dark));

    // Shortcut defaults
    assert_eq!(settings.shortcuts.toggle_launcher, "Alt+Shift+Space");

    // LLM defaults
    assert!(matches!(settings.llm.provider, LlmProvider::Gemini));
    assert!(settings.llm.api_key.is_empty());
    assert!(!settings.llm.system_prompt.is_empty());
}

#[test]
fn test_default_system_prompt_is_not_empty() {
    assert!(!DEFAULT_SYSTEM_PROMPT.is_empty());
    assert!(DEFAULT_SYSTEM_PROMPT.contains("Quick Assist"));
}

#[test]
fn default_document_is_complete() {
    let settings = AppSettings::default();
    assert_eq!(
        settings,
        AppSettings {
            general: GeneralSettings { auto_startup: false, theme: Theme::Dark },
            shortcuts: ShortcutSettings { toggle_launcher: "Alt+Shift+Space".to_string() },
            llm: LlmSettings {
                provider: LlmProvider::Gemini,
                api_key: String::new(),
                model: "gemini-2.0-flash".to_string(),
                base_url: None,
                system_prompt: DEFAULT_SYSTEM_PROMPT.to_string(),
            },
        }
    );
}

#[test]
fn default_parts_agree_with_the_document() {
    let settings = AppSettings::default();
    assert_eq!(settings.general, GeneralSettings::default());
    assert_eq!(settings.shortcuts, ShortcutSettings::default());
    assert_eq!(settings.llm, LlmSettings::default());
    assert_eq!(Theme::default(), Theme::Dark);
    assert_eq!(LlmProvider::default(), LlmProvider::Gemini);
    assert_eq!(default_model(), DEFAULT_MODEL);
    assert_eq!(default_model(), "gemini-2.0-flash");
    assert_eq!(default_system_prompt(), DEFAULT_SYSTEM_PROMPT);
    assert_eq!(DEFAULT_SHORTCUT, "Alt+Shift+Space");
}

#[test]
fn default_system_prompt_text() {
    assert!(DEFAULT_SYSTEM_PROMPT.starts_with(
        "You are Quick Assist, a fast and helpful AI assistant. You provide concise, accurate, and actionable responses.\n\nGuidelines:\n- Be direct and concise"
    ));
    assert!(DEFAULT_SYSTEM_PROMPT.ends_with("- Avoid unnecessary pleasantries - get straight to the point"));
    assert_eq!(DEFAULT_SYSTEM_PROMPT.lines().count(), 8);
    assert_eq!(DEFAULT_SYSTEM_PROMPT.len(), 439);
}
