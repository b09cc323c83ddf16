//! The settings document: its shape and its defaults.
//!
//! ```text
//! AppSettings
//! |- general: GeneralSettings
//! |   |- auto_startup: bool
//! |   `- theme: Theme
//! |- shortcuts: ShortcutSettings
//! |   `- toggle_launcher: String
//! `- llm: LlmSettings
//!     |- provider: LlmProvider
//!     |- api_key: String
//!     |- model: String
//!     |- base_url: Option<String>
//!     `- system_prompt: String
//! ```
//!
//! The document is always complete. The shortcut string is not checked here:
//! whether it can be parsed shows when it is applied.

use vstd::prelude::*;
use vstd::string::*;

verus! {

/// Root of the settings document.
#[derive(Debug, Clone, PartialEq, Eq)]
pub struct AppSettings {
    /// General preferences.
    pub general: GeneralSettings,
    /// Keyboard shortcuts.
    pub shortcuts: ShortcutSettings,
    /// Configuration of the LLM provider.
    pub llm: LlmSettings,
}

/// General preferences.
#[derive(Debug, Clone, Copy, PartialEq, Eq, Structural)]
pub struct GeneralSettings {
    /// Whether the application starts at login.
    pub auto_startup: bool,
    /// UI colour theme.
    pub theme: Theme,
}

/// UI colour theme.
#[derive(Debug, Clone, Copy, PartialEq, Eq, Structural)]
pub enum Theme {
    /// Always dark.
    Dark,
    /// Always light.
    Light,
    /// Follow the system's preference.
    System,
}

/// Keyboard shortcuts.
#[derive(Debug, Clone, PartialEq, Eq)]
pub struct ShortcutSettings {
    /// Global hotkey that shows or hides the launcher, in the form
    /// `"Modifier+Modifier+Key"`, such as `"Alt+Shift+Space"`.
    pub toggle_launcher: String,
}

/// The shortcut of a fresh installation, and the one to fall back on.
pub const DEFAULT_SHORTCUT: &'static str = "Alt+Shift+Space";

/// The model of a fresh installation.
pub const DEFAULT_MODEL: &'static str = "gemini-2.0-flash";

/// The system prompt of a fresh installation.
pub const DEFAULT_SYSTEM_PROMPT: &'static str =
    "You are Quick Assist, a fast and helpful AI assistant. You provide concise, accurate, and actionable responses.\n\nGuidelines:\n- Be direct and concise - users want quick answers\n- Use markdown formatting for better readability\n- For code, always specify the language in code blocks\n- If a question is ambiguous, give the most likely answer first, then briefly mention alternatives\n- Avoid unnecessary pleasantries - get straight to the point";

/// Configuration of the LLM provider.
#[derive(Debug, Clone, PartialEq, Eq)]
pub struct LlmSettings {
    /// Which provider to use.
    pub provider: LlmProvider,
    /// API key for the provider.
    pub api_key: String,
    /// Model identifier, such as `"gpt-4o"`.
    pub model: String,
    /// Base URL of a custom endpoint.
    pub base_url: Option<String>,
    /// System prompt.
    pub system_prompt: String,
}

/// The LLM providers.
#[derive(Debug, Clone, Copy, PartialEq, Eq, Structural)]
pub enum LlmProvider {
    /// Google Gemini.
    Gemini,
    /// OpenAI.
    OpenAI,
    /// Anthropic.
    Anthropic,
    /// A custom endpoint that speaks OpenAI's protocol.
    Custom,
}

/// An `LlmSettings` as a mathematical value.
pub struct LlmSettingsView {
    /// Which provider to use.
    pub provider: LlmProvider,
    /// API key for the provider.
    pub api_key: Seq<char>,
    /// Model identifier.
    pub model: Seq<char>,
    /// Base URL of a custom endpoint.
    pub base_url: Option<Seq<char>>,
    /// System prompt.
    pub system_prompt: Seq<char>,
}

/// An `AppSettings` as a mathematical value.
pub struct AppSettingsView {
    /// General preferences.
    pub general: GeneralSettings,
    /// The shortcut string.
    pub toggle_launcher: Seq<char>,
    /// Configuration of the LLM provider.
    pub llm: LlmSettingsView,
}

impl View for ShortcutSettings {
    type V = Seq<char>;

    open spec fn view(&self) -> Seq<char> {
        self.toggle_launcher@
    }
}

impl View for LlmSettings {
    type V = LlmSettingsView;

    open spec fn view(&self) -> LlmSettingsView {
        LlmSettingsView {
            provider: self.provider,
            api_key: self.api_key@,
            model: self.model@,
            base_url: match self.base_url {
                Some(url) => Some(url@),
                None => None,
            },
            system_prompt: self.system_prompt@,
        }
    }
}

impl View for AppSettings {
    type V = AppSettingsView;

    open spec fn view(&self) -> AppSettingsView {
        AppSettingsView {
            general: self.general,
            toggle_launcher: self.shortcuts@,
            llm: self.llm@,
        }
    }
}

/// The general preferences of a fresh installation.
pub open spec fn default_general() -> GeneralSettings {
    GeneralSettings { auto_startup: false, theme: Theme::Dark }
}

/// The LLM configuration of a fresh installation.
pub open spec fn default_llm() -> LlmSettingsView {
    LlmSettingsView {
        provider: LlmProvider::Gemini,
        api_key: Seq::empty(),
        model: DEFAULT_MODEL@,
        base_url: None,
        system_prompt: DEFAULT_SYSTEM_PROMPT@,
    }
}

/// The settings document of a fresh installation.
pub open spec fn default_settings() -> AppSettingsView {
    AppSettingsView {
        general: default_general(),
        toggle_launcher: DEFAULT_SHORTCUT@,
        llm: default_llm(),
    }
}

/// The model that a document without one gets.
pub fn default_model() -> (model: String)
    ensures
        model@ == DEFAULT_MODEL@,
{
    String::from_str(DEFAULT_MODEL)
}

/// The system prompt that a document without one gets.
pub fn default_system_prompt() -> (prompt: String)
    ensures
        prompt@ == DEFAULT_SYSTEM_PROMPT@,
{
    String::from_str(DEFAULT_SYSTEM_PROMPT)
}

impl Default for AppSettings {
    fn default() -> (r: Self)
        ensures
            r@ == default_settings(),
    {
        AppSettings {
            general: GeneralSettings::default(),
            shortcuts: ShortcutSettings::default(),
            llm: LlmSettings::default(),
        }
    }
}

impl Default for GeneralSettings {
    fn default() -> (r: Self)
        ensures
            r == default_general(),
    {
        GeneralSettings { auto_startup: false, theme: Theme::Dark }
    }
}

impl Default for Theme {
    fn default() -> (r: Self)
        ensures
            r == Theme::Dark,
    {
        Theme::Dark
    }
}

impl Default for ShortcutSettings {
    fn default() -> (r: Self)
        ensures
            r@ == DEFAULT_SHORTCUT@,
    {
        ShortcutSettings { toggle_launcher: String::from_str(DEFAULT_SHORTCUT) }
    }
}

impl Default for LlmSettings {
    fn default() -> (r: Self)
        ensures
            r@ == default_llm(),
    {
        LlmSettings {
            provider: LlmProvider::Gemini,
            api_key: String::new(),
            model: default_model(),
            base_url: None,
            system_prompt: default_system_prompt(),
        }
    }
}

impl Default for LlmProvider {
    fn default() -> (r: Self)
        ensures
            r == LlmProvider::Gemini,
    {
        LlmProvider::Gemini
    }
}

} // verus!
