//! The parser of shortcut strings.

use super::keys::{Key, KeyCombination, Modifiers};
use super::text::{fold_case, folded, pieces, split_plus, trim, trimmed};
use super::vocabulary::{token_named, token_of, Token};
use vstd::prelude::*;
use vstd::string::*;

verus! {

/// Why a shortcut string was refused.
#[derive(Debug, Clone, PartialEq, Eq)]
pub enum ParseError {
    /// The string names no modifier.
    MissingModifier,
    /// The string names no key.
    MissingKey,
    /// The string holds this name, which is neither a modifier nor a key. The
    /// name is given trimmed and in lower case.
    UnknownKey(String),
}

/// A `ParseError` as a mathematical value.
pub enum ParseFault {
    /// No modifier is named.
    MissingModifier,
    /// No key is named.
    MissingKey,
    /// This name is neither a modifier nor a key.
    UnknownKey(Seq<char>),
}

impl View for ParseError {
    type V = ParseFault;

    open spec fn view(&self) -> ParseFault {
        match self {
            ParseError::MissingModifier => ParseFault::MissingModifier,
            ParseError::MissingKey => ParseFault::MissingKey,
            ParseError::UnknownKey(name) => ParseFault::UnknownKey(name@),
        }
    }
}

/// A fault in words.
pub open spec fn message_of(fault: ParseFault) -> Seq<char> {
    match fault {
        ParseFault::MissingModifier =>
            "Shortcut must have at least one modifier (Ctrl, Alt, Shift, or Win)"@,
        ParseFault::MissingKey => "Shortcut must have a non-modifier key"@,
        ParseFault::UnknownKey(name) => "Unknown key: "@ + name,
    }
}

impl ParseError {
    /// The error in words.
    pub fn message(&self) -> (text: String)
        ensures
            text@ == message_of(self@),
    {
        match self {
            ParseError::MissingModifier => String::from_str(
                "Shortcut must have at least one modifier (Ctrl, Alt, Shift, or Win)",
            ),
            ParseError::MissingKey => String::from_str("Shortcut must have a non-modifier key"),
            ParseError::UnknownKey(name) => String::from_str("Unknown key: ").concat(
                name.as_str(),
            ),
        }
    }
}

/// The name that a piece of a shortcut string holds: the piece trimmed and in
/// lower case.
pub open spec fn name_of(piece: Seq<char>) -> Seq<char> {
    folded(trimmed(piece))
}

/// The names that `text` holds, in order.
pub open spec fn names(text: Seq<char>) -> Seq<Seq<char>> {
    Seq::new(pieces(text).len(), |k: int| name_of(pieces(text)[k]))
}

/// What has been read of a shortcut string: the modifiers met, and the key
/// met last.
pub struct Reading {
    /// The modifiers met so far.
    pub modifiers: Modifiers,
    /// The key met last, if any was.
    pub key: Option<Key>,
}

/// What reading `names` from left to right gives: the modifiers gathered and
/// the last key, or the first name that stands for nothing.
pub open spec fn read(names: Seq<Seq<char>>) -> Result<Reading, ParseFault>
    decreases names.len(),
{
    if names.len() == 0 {
        Ok(
            Reading {
                modifiers: Modifiers { control: false, alt: false, shift: false, meta: false },
                key: None,
            },
        )
    } else {
        match read(names.drop_last()) {
            Err(fault) => Err(fault),
            Ok(before) => match token_named(names.last()) {
                Some(Token::Modifier(modifier)) => Ok(
                    Reading { modifiers: before.modifiers.including(modifier), key: before.key },
                ),
                Some(Token::Key(key)) => Ok(
                    Reading { modifiers: before.modifiers, key: Some(key) },
                ),
                None => Err(ParseFault::UnknownKey(names.last())),
            },
        }
    }
}

/// What a shortcut string stands for. A name that stands for nothing is
/// reported first; then a missing key; then a missing modifier.
pub open spec fn parsed(text: Seq<char>) -> Result<KeyCombination, ParseFault> {
    match read(names(text)) {
        Err(fault) => Err(fault),
        Ok(reading) => match reading.key {
            None => Err(ParseFault::MissingKey),
            Some(key) => if reading.modifiers.none_held() {
                Err(ParseFault::MissingModifier)
            } else {
                Ok(KeyCombination { modifiers: reading.modifiers, key })
            },
        },
    }
}

/// Whether the shortcut string `text` stands for `combination`.
pub open spec fn stands_for(text: Seq<char>, combination: KeyCombination) -> bool {
    parsed(text) == Ok::<KeyCombination, ParseFault>(combination)
}

/// Whether `result` is the outcome `expected`, the error taken by its view.
pub open spec fn is_outcome(
    result: Result<KeyCombination, ParseError>,
    expected: Result<KeyCombination, ParseFault>,
) -> bool {
    match result {
        Ok(combination) => expected == Ok::<KeyCombination, ParseFault>(combination),
        Err(error) => expected == Err::<KeyCombination, ParseFault>(error@),
    }
}

/// Once a name stands for nothing, reading further names changes nothing.
pub proof fn lemma_read_stays_failed(names: Seq<Seq<char>>, k: int)
    requires
        0 <= k <= names.len(),
        read(names.take(k)) is Err,
    ensures
        read(names) == read(names.take(k)),
    decreases names.len() - k,
{
    if k == names.len() {
        assert(names.take(k) =~= names);
    } else {
        assert(names.take(k + 1).drop_last() =~= names.take(k));
        lemma_read_stays_failed(names, k + 1);
    }
}

/// Parses a shortcut string such as `"Alt+Shift+Space"` or `"Ctrl+K"`.
///
/// The string is split at `+`; each piece is trimmed and matched without
/// regard to case. Modifiers accumulate. Of several keys the last one
/// counts.
pub fn parse_shortcut(shortcut_str: &str) -> (r: Result<KeyCombination, ParseError>)
    ensures
        is_outcome(r, parsed(shortcut_str@)),
        r matches Ok(combination) ==> combination.well_formed(),
{
    let parts = split_plus(shortcut_str);
    let ghost all = names(shortcut_str@);
    let mut modifiers = Modifiers::empty();
    let mut key: Option<Key> = None;
    let mut k: usize = 0;
    assert(all.take(0) =~= Seq::<Seq<char>>::empty());
    while k < parts.len()
        invariant
            all == names(shortcut_str@),
            parts@.len() == pieces(shortcut_str@).len(),
            forall|j: int|
                0 <= j < parts@.len() ==> (#[trigger] parts@[j])@ == pieces(shortcut_str@)[j],
            0 <= k <= parts.len(),
            read(all.take(k as int)) == Ok::<Reading, ParseFault>(Reading { modifiers, key }),
        decreases parts.len() - k,
    {
        let name = fold_case(trim(parts[k]));
        proof {
            assert(name@ == all[k as int]);
            assert(all.take(k + 1).drop_last() =~= all.take(k as int));
            assert(all.take(k + 1).last() == all[k as int]);
        }
        match token_of(name.as_str()) {
            Some(Token::Modifier(modifier)) => {
                modifiers = modifiers.with(modifier);
            },
            Some(Token::Key(found)) => {
                key = Some(found);
            },
            None => {
                proof {
                    lemma_read_stays_failed(all, k + 1);
                }
                return Err(ParseError::UnknownKey(name));
            },
        }
        k += 1;
    }
    assert(all.take(k as int) =~= all);
    match key {
        Some(found) => {
            if modifiers.is_empty() {
                Err(ParseError::MissingModifier)
            } else {
                Ok(KeyCombination { modifiers, key: found })
            }
        },
        None => Err(ParseError::MissingKey),
    }
}

} // verus!
