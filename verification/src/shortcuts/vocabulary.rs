//! The names that a shortcut string may hold, and what each stands for.

use super::keys::{Key, Modifier};
use super::text::text_chars;
use vstd::prelude::*;

verus! {

/// What one name in a shortcut string stands for.
#[derive(Debug, Clone, Copy, PartialEq, Eq, Structural)]
pub enum Token {
    /// A modifier to hold.
    Modifier(Modifier),
    /// The key to press.
    Key(Key),
}

/// The modifier that `name` stands for, if any. Names are in lower case.
pub open spec fn modifier_named(name: Seq<char>) -> Option<Modifier> {
    if name == "ctrl"@ || name == "control"@ {
        Some(Modifier::Control)
    } else if name == "alt"@ {
        Some(Modifier::Alt)
    } else if name == "shift"@ {
        Some(Modifier::Shift)
    } else if name == "win"@ || name == "meta"@ || name == "super"@ || name == "cmd"@ || name
        == "command"@ {
        Some(Modifier::Meta)
    } else {
        None
    }
}

/// A function key, by its name: `f1` to `f12`.
pub open spec fn function_key_named(name: Seq<char>) -> Option<Key> {
    if name == "f1"@ {
        Some(Key::F1)
    } else if name == "f2"@ {
        Some(Key::F2)
    } else if name == "f3"@ {
        Some(Key::F3)
    } else if name == "f4"@ {
        Some(Key::F4)
    } else if name == "f5"@ {
        Some(Key::F5)
    } else if name == "f6"@ {
        Some(Key::F6)
    } else if name == "f7"@ {
        Some(Key::F7)
    } else if name == "f8"@ {
        Some(Key::F8)
    } else if name == "f9"@ {
        Some(Key::F9)
    } else if name == "f10"@ {
        Some(Key::F10)
    } else if name == "f11"@ {
        Some(Key::F11)
    } else if name == "f12"@ {
        Some(Key::F12)
    } else {
        None
    }
}

/// A key for editing or moving about, by one of its names.
pub open spec fn editing_key_named(name: Seq<char>) -> Option<Key> {
    if name == "space"@ {
        Some(Key::Space)
    } else if name == "enter"@ || name == "return"@ {
        Some(Key::Enter)
    } else if name == "tab"@ {
        Some(Key::Tab)
    } else if name == "escape"@ || name == "esc"@ {
        Some(Key::Escape)
    } else if name == "backspace"@ {
        Some(Key::Backspace)
    } else if name == "delete"@ || name == "del"@ {
        Some(Key::Delete)
    } else if name == "insert"@ || name == "ins"@ {
        Some(Key::Insert)
    } else if name == "home"@ {
        Some(Key::Home)
    } else if name == "end"@ {
        Some(Key::End)
    } else if name == "pageup"@ || name == "pgup"@ {
        Some(Key::PageUp)
    } else if name == "pagedown"@ || name == "pgdn"@ {
        Some(Key::PageDown)
    } else if name == "up"@ || name == "arrowup"@ {
        Some(Key::ArrowUp)
    } else if name == "down"@ || name == "arrowdown"@ {
        Some(Key::ArrowDown)
    } else if name == "left"@ || name == "arrowleft"@ {
        Some(Key::ArrowLeft)
    } else if name == "right"@ || name == "arrowright"@ {
        Some(Key::ArrowRight)
    } else {
        None
    }
}

/// A digit of the main row, by the digit or by `digit0` to `digit9`.
pub open spec fn digit_key_named(name: Seq<char>) -> Option<Key> {
    if name == "0"@ || name == "digit0"@ {
        Some(Key::Digit0)
    } else if name == "1"@ || name == "digit1"@ {
        Some(Key::Digit1)
    } else if name == "2"@ || name == "digit2"@ {
        Some(Key::Digit2)
    } else if name == "3"@ || name == "digit3"@ {
        Some(Key::Digit3)
    } else if name == "4"@ || name == "digit4"@ {
        Some(Key::Digit4)
    } else if name == "5"@ || name == "digit5"@ {
        Some(Key::Digit5)
    } else if name == "6"@ || name == "digit6"@ {
        Some(Key::Digit6)
    } else if name == "7"@ || name == "digit7"@ {
        Some(Key::Digit7)
    } else if name == "8"@ || name == "digit8"@ {
        Some(Key::Digit8)
    } else if name == "9"@ || name == "digit9"@ {
        Some(Key::Digit9)
    } else {
        None
    }
}

/// A letter, by the letter itself.
pub open spec fn letter_key_named(name: Seq<char>) -> Option<Key> {
    if name == "a"@ {
        Some(Key::KeyA)
    } else if name == "b"@ {
        Some(Key::KeyB)
    } else if name == "c"@ {
        Some(Key::KeyC)
    } else if name == "d"@ {
        Some(Key::KeyD)
    } else if name == "e"@ {
        Some(Key::KeyE)
    } else if name == "f"@ {
        Some(Key::KeyF)
    } else if name == "g"@ {
        Some(Key::KeyG)
    } else if name == "h"@ {
        Some(Key::KeyH)
    } else if name == "i"@ {
        Some(Key::KeyI)
    } else if name == "j"@ {
        Some(Key::KeyJ)
    } else if name == "k"@ {
        Some(Key::KeyK)
    } else if name == "l"@ {
        Some(Key::KeyL)
    } else if name == "m"@ {
        Some(Key::KeyM)
    } else if name == "n"@ {
        Some(Key::KeyN)
    } else if name == "o"@ {
        Some(Key::KeyO)
    } else if name == "p"@ {
        Some(Key::KeyP)
    } else if name == "q"@ {
        Some(Key::KeyQ)
    } else if name == "r"@ {
        Some(Key::KeyR)
    } else if name == "s"@ {
        Some(Key::KeyS)
    } else if name == "t"@ {
        Some(Key::KeyT)
    } else if name == "u"@ {
        Some(Key::KeyU)
    } else if name == "v"@ {
        Some(Key::KeyV)
    } else if name == "w"@ {
        Some(Key::KeyW)
    } else if name == "x"@ {
        Some(Key::KeyX)
    } else if name == "y"@ {
        Some(Key::KeyY)
    } else if name == "z"@ {
        Some(Key::KeyZ)
    } else {
        None
    }
}

/// A punctuation key, by its sign or by its name.
pub open spec fn punctuation_key_named(name: Seq<char>) -> Option<Key> {
    if name == "`"@ || name == "backquote"@ {
        Some(Key::Backquote)
    } else if name == "-"@ || name == "minus"@ {
        Some(Key::Minus)
    } else if name == "="@ || name == "equal"@ {
        Some(Key::Equal)
    } else if name == "["@ || name == "bracketleft"@ {
        Some(Key::BracketLeft)
    } else if name == "]"@ || name == "bracketright"@ {
        Some(Key::BracketRight)
    } else if name == "\\"@ || name == "backslash"@ {
        Some(Key::Backslash)
    } else if name == ";"@ || name == "semicolon"@ {
        Some(Key::Semicolon)
    } else if name == "'"@ || name == "quote"@ {
        Some(Key::Quote)
    } else if name == ","@ || name == "comma"@ {
        Some(Key::Comma)
    } else if name == "."@ || name == "period"@ {
        Some(Key::Period)
    } else if name == "/"@ || name == "slash"@ {
        Some(Key::Slash)
    } else {
        None
    }
}

/// A digit of the numeric pad, by its name: `numpad0` to `numpad9`.
pub open spec fn numpad_key_named(name: Seq<char>) -> Option<Key> {
    if name == "numpad0"@ {
        Some(Key::Numpad0)
    } else if name == "numpad1"@ {
        Some(Key::Numpad1)
    } else if name == "numpad2"@ {
        Some(Key::Numpad2)
    } else if name == "numpad3"@ {
        Some(Key::Numpad3)
    } else if name == "numpad4"@ {
        Some(Key::Numpad4)
    } else if name == "numpad5"@ {
        Some(Key::Numpad5)
    } else if name == "numpad6"@ {
        Some(Key::Numpad6)
    } else if name == "numpad7"@ {
        Some(Key::Numpad7)
    } else if name == "numpad8"@ {
        Some(Key::Numpad8)
    } else if name == "numpad9"@ {
        Some(Key::Numpad9)
    } else {
        None
    }
}

/// The key that `name` stands for, if any. Names are in lower case.
pub open spec fn key_named(name: Seq<char>) -> Option<Key> {
    if function_key_named(name) is Some {
        function_key_named(name)
    } else if editing_key_named(name) is Some {
        editing_key_named(name)
    } else if digit_key_named(name) is Some {
        digit_key_named(name)
    } else if letter_key_named(name) is Some {
        letter_key_named(name)
    } else if punctuation_key_named(name) is Some {
        punctuation_key_named(name)
    } else {
        numpad_key_named(name)
    }
}

/// What `name` stands for: a modifier, a key, or nothing.
pub open spec fn token_named(name: Seq<char>) -> Option<Token> {
    match modifier_named(name) {
        Some(modifier) => Some(Token::Modifier(modifier)),
        None => match key_named(name) {
            Some(key) => Some(Token::Key(key)),
            None => None,
        },
    }
}

/// Whether `name` holds the characters of `word`.
fn is_word(name: &Vec<char>, word: &str) -> (r: bool)
    ensures
        r == (name@ == word@),
{
    let mut matched: usize = 0;
    let mut same = true;
    for c in it: word.chars()
        invariant
            it.seq() == word@,
            matched <= name.len(),
            same ==> matched == it.index() && name@.take(matched as int) == word@.take(
                matched as int,
            ),
            !same ==> name@ != word@,
    {
        if same && matched < name.len() && name[matched] == c {
            assert(name@.take(matched + 1) =~= name@.take(matched as int).push(
                name@[matched as int],
            ));
            assert(word@.take(matched + 1) =~= word@.take(matched as int).push(
                word@[matched as int],
            ));
            matched += 1;
        } else {
            same = false;
        }
    }
    proof {
        if same && matched == name.len() {
            assert(name@.take(matched as int) =~= name@);
            assert(word@.take(matched as int) =~= word@);
        }
    }
    same && matched == name.len()
}

fn modifier_of(name: &Vec<char>) -> (r: Option<Modifier>)
    ensures
        r == modifier_named(name@),
{
    if is_word(name, "ctrl") || is_word(name, "control") {
        Some(Modifier::Control)
    } else if is_word(name, "alt") {
        Some(Modifier::Alt)
    } else if is_word(name, "shift") {
        Some(Modifier::Shift)
    } else if is_word(name, "win") || is_word(name, "meta") || is_word(name, "super") || is_word(
        name,
        "cmd",
    ) || is_word(name, "command") {
        Some(Modifier::Meta)
    } else {
        None
    }
}

fn function_key_of(name: &Vec<char>) -> (r: Option<Key>)
    ensures
        r == function_key_named(name@),
{
    if is_word(name, "f1") {
        Some(Key::F1)
    } else if is_word(name, "f2") {
        Some(Key::F2)
    } else if is_word(name, "f3") {
        Some(Key::F3)
    } else if is_word(name, "f4") {
        Some(Key::F4)
    } else if is_word(name, "f5") {
        Some(Key::F5)
    } else if is_word(name, "f6") {
        Some(Key::F6)
    } else if is_word(name, "f7") {
        Some(Key::F7)
    } else if is_word(name, "f8") {
        Some(Key::F8)
    } else if is_word(name, "f9") {
        Some(Key::F9)
    } else if is_word(name, "f10") {
        Some(Key::F10)
    } else if is_word(name, "f11") {
        Some(Key::F11)
    } else if is_word(name, "f12") {
        Some(Key::F12)
    } else {
        None
    }
}

fn editing_key_of(name: &Vec<char>) -> (r: Option<Key>)
    ensures
        r == editing_key_named(name@),
{
    if is_word(name, "space") {
        Some(Key::Space)
    } else if is_word(name, "enter") || is_word(name, "return") {
        Some(Key::Enter)
    } else if is_word(name, "tab") {
        Some(Key::Tab)
    } else if is_word(name, "escape") || is_word(name, "esc") {
        Some(Key::Escape)
    } else if is_word(name, "backspace") {
        Some(Key::Backspace)
    } else if is_word(name, "delete") || is_word(name, "del") {
        Some(Key::Delete)
    } else if is_word(name, "insert") || is_word(name, "ins") {
        Some(Key::Insert)
    } else if is_word(name, "home") {
        Some(Key::Home)
    } else if is_word(name, "end") {
        Some(Key::End)
    } else if is_word(name, "pageup") || is_word(name, "pgup") {
        Some(Key::PageUp)
    } else if is_word(name, "pagedown") || is_word(name, "pgdn") {
        Some(Key::PageDown)
    } else if is_word(name, "up") || is_word(name, "arrowup") {
        Some(Key::ArrowUp)
    } else if is_word(name, "down") || is_word(name, "arrowdown") {
        Some(Key::ArrowDown)
    } else if is_word(name, "left") || is_word(name, "arrowleft") {
        Some(Key::ArrowLeft)
    } else if is_word(name, "right") || is_word(name, "arrowright") {
        Some(Key::ArrowRight)
    } else {
        None
    }
}

fn digit_key_of(name: &Vec<char>) -> (r: Option<Key>)
    ensures
        r == digit_key_named(name@),
{
    if is_word(name, "0") || is_word(name, "digit0") {
        Some(Key::Digit0)
    } else if is_word(name, "1") || is_word(name, "digit1") {
        Some(Key::Digit1)
    } else if is_word(name, "2") || is_word(name, "digit2") {
        Some(Key::Digit2)
    } else if is_word(name, "3") || is_word(name, "digit3") {
        Some(Key::Digit3)
    } else if is_word(name, "4") || is_word(name, "digit4") {
        Some(Key::Digit4)
    } else if is_word(name, "5") || is_word(name, "digit5") {
        Some(Key::Digit5)
    } else if is_word(name, "6") || is_word(name, "digit6") {
        Some(Key::Digit6)
    } else if is_word(name, "7") || is_word(name, "digit7") {
        Some(Key::Digit7)
    } else if is_word(name, "8") || is_word(name, "digit8") {
        Some(Key::Digit8)
    } else if is_word(name, "9") || is_word(name, "digit9") {
        Some(Key::Digit9)
    } else {
        None
    }
}

fn letter_key_of(name: &Vec<char>) -> (r: Option<Key>)
    ensures
        r == letter_key_named(name@),
{
    if is_word(name, "a") {
        Some(Key::KeyA)
    } else if is_word(name, "b") {
        Some(Key::KeyB)
    } else if is_word(name, "c") {
        Some(Key::KeyC)
    } else if is_word(name, "d") {
        Some(Key::KeyD)
    } else if is_word(name, "e") {
        Some(Key::KeyE)
    } else if is_word(name, "f") {
        Some(Key::KeyF)
    } else if is_word(name, "g") {
        Some(Key::KeyG)
    } else if is_word(name, "h") {
        Some(Key::KeyH)
    } else if is_word(name, "i") {
        Some(Key::KeyI)
    } else if is_word(name, "j") {
        Some(Key::KeyJ)
    } else if is_word(name, "k") {
        Some(Key::KeyK)
    } else if is_word(name, "l") {
        Some(Key::KeyL)
    } else if is_word(name, "m") {
        Some(Key::KeyM)
    } else if is_word(name, "n") {
        Some(Key::KeyN)
    } else if is_word(name, "o") {
        Some(Key::KeyO)
    } else if is_word(name, "p") {
        Some(Key::KeyP)
    } else if is_word(name, "q") {
        Some(Key::KeyQ)
    } else if is_word(name, "r") {
        Some(Key::KeyR)
    } else if is_word(name, "s") {
        Some(Key::KeyS)
    } else if is_word(name, "t") {
        Some(Key::KeyT)
    } else if is_word(name, "u") {
        Some(Key::KeyU)
    } else if is_word(name, "v") {
        Some(Key::KeyV)
    } else if is_word(name, "w") {
        Some(Key::KeyW)
    } else if is_word(name, "x") {
        Some(Key::KeyX)
    } else if is_word(name, "y") {
        Some(Key::KeyY)
    } else if is_word(name, "z") {
        Some(Key::KeyZ)
    } else {
        None
    }
}

fn punctuation_key_of(name: &Vec<char>) -> (r: Option<Key>)
    ensures
        r == punctuation_key_named(name@),
{
    if is_word(name, "`") || is_word(name, "backquote") {
        Some(Key::Backquote)
    } else if is_word(name, "-") || is_word(name, "minus") {
        Some(Key::Minus)
    } else if is_word(name, "=") || is_word(name, "equal") {
        Some(Key::Equal)
    } else if is_word(name, "[") || is_word(name, "bracketleft") {
        Some(Key::BracketLeft)
    } else if is_word(name, "]") || is_word(name, "bracketright") {
        Some(Key::BracketRight)
    } else if is_word(name, "\\") || is_word(name, "backslash") {
        Some(Key::Backslash)
    } else if is_word(name, ";") || is_word(name, "semicolon") {
        Some(Key::Semicolon)
    } else if is_word(name, "'") || is_word(name, "quote") {
        Some(Key::Quote)
    } else if is_word(name, ",") || is_word(name, "comma") {
        Some(Key::Comma)
    } else if is_word(name, ".") || is_word(name, "period") {
        Some(Key::Period)
    } else if is_word(name, "/") || is_word(name, "slash") {
        Some(Key::Slash)
    } else {
        None
    }
}

fn numpad_key_of(name: &Vec<char>) -> (r: Option<Key>)
    ensures
        r == numpad_key_named(name@),
{
    if is_word(name, "numpad0") {
        Some(Key::Numpad0)
    } else if is_word(name, "numpad1") {
        Some(Key::Numpad1)
    } else if is_word(name, "numpad2") {
        Some(Key::Numpad2)
    } else if is_word(name, "numpad3") {
        Some(Key::Numpad3)
    } else if is_word(name, "numpad4") {
        Some(Key::Numpad4)
    } else if is_word(name, "numpad5") {
        Some(Key::Numpad5)
    } else if is_word(name, "numpad6") {
        Some(Key::Numpad6)
    } else if is_word(name, "numpad7") {
        Some(Key::Numpad7)
    } else if is_word(name, "numpad8") {
        Some(Key::Numpad8)
    } else if is_word(name, "numpad9") {
        Some(Key::Numpad9)
    } else {
        None
    }
}

fn key_of(name: &Vec<char>) -> (r: Option<Key>)
    ensures
        r == key_named(name@),
{
    let found = function_key_of(name);
    if found.is_some() {
        return found;
    }
    let found = editing_key_of(name);
    if found.is_some() {
        return found;
    }
    let found = digit_key_of(name);
    if found.is_some() {
        return found;
    }
    let found = letter_key_of(name);
    if found.is_some() {
        return found;
    }
    let found = punctuation_key_of(name);
    if found.is_some() {
        return found;
    }
    numpad_key_of(name)
}

/// What `name` stands for: a modifier, a key, or nothing. The name is matched
/// as it is, so the caller folds it to lower case first.
pub fn token_of(name: &str) -> (r: Option<Token>)
    ensures
        r == token_named(name@),
{
    let chars = text_chars(name);
    match modifier_of(&chars) {
        Some(modifier) => Some(Token::Modifier(modifier)),
        None => match key_of(&chars) {
            Some(key) => Some(Token::Key(key)),
            None => None,
        },
    }
}

} // verus!
