//! Shortcut strings such as `"Alt+Shift+Space"` and their structured form.
//!
//! A shortcut string names modifiers and one key, separated by `+`. Names are
//! matched without regard to case or to whitespace around them:
//!
//! - modifiers: `Ctrl`/`Control`, `Alt`, `Shift`, `Win`/`Meta`/`Super`/`Cmd`/`Command`;
//! - keys: the letters, the digits, `F1` to `F12`, the editing and arrow keys,
//!   punctuation and the digits of the numeric pad.

pub mod keys;
pub mod laws;
pub mod parser;
pub mod text;
pub mod vocabulary;

pub use keys::{Key, KeyCombination, Modifier, Modifiers};
pub use parser::{parse_shortcut, ParseError, ParseFault};
