//! Keys, modifiers and key combinations.

use vstd::prelude::*;

verus! {

/// A modifier key.
#[derive(Debug, Clone, Copy, PartialEq, Eq, Hash, Structural)]
pub enum Modifier {
    /// Ctrl.
    Control,
    /// Alt.
    Alt,
    /// Shift.
    Shift,
    /// The Windows, Command or Super key.
    Meta,
}

/// A key that is no modifier.
#[derive(Debug, Clone, Copy, PartialEq, Eq, Hash, Structural)]
pub enum Key {
    /// Function key F1.
    F1,
    /// Function key F2.
    F2,
    /// Function key F3.
    F3,
    /// Function key F4.
    F4,
    /// Function key F5.
    F5,
    /// Function key F6.
    F6,
    /// Function key F7.
    F7,
    /// Function key F8.
    F8,
    /// Function key F9.
    F9,
    /// Function key F10.
    F10,
    /// Function key F11.
    F11,
    /// Function key F12.
    F12,
    /// The Space key.
    Space,
    /// The Enter key.
    Enter,
    /// The Tab key.
    Tab,
    /// The Escape key.
    Escape,
    /// The Backspace key.
    Backspace,
    /// The Delete key.
    Delete,
    /// The Insert key.
    Insert,
    /// The Home key.
    Home,
    /// The End key.
    End,
    /// The Page Up key.
    PageUp,
    /// The Page Down key.
    PageDown,
    /// The up arrow.
    ArrowUp,
    /// The down arrow.
    ArrowDown,
    /// The left arrow.
    ArrowLeft,
    /// The right arrow.
    ArrowRight,
    /// The digit 0 of the main row.
    Digit0,
    /// The digit 1 of the main row.
    Digit1,
    /// The digit 2 of the main row.
    Digit2,
    /// The digit 3 of the main row.
    Digit3,
    /// The digit 4 of the main row.
    Digit4,
    /// The digit 5 of the main row.
    Digit5,
    /// The digit 6 of the main row.
    Digit6,
    /// The digit 7 of the main row.
    Digit7,
    /// The digit 8 of the main row.
    Digit8,
    /// The digit 9 of the main row.
    Digit9,
    /// The letter A.
    KeyA,
    /// The letter B.
    KeyB,
    /// The letter C.
    KeyC,
    /// The letter D.
    KeyD,
    /// The letter E.
    KeyE,
    /// The letter F.
    KeyF,
    /// The letter G.
    KeyG,
    /// The letter H.
    KeyH,
    /// The letter I.
    KeyI,
    /// The letter J.
    KeyJ,
    /// The letter K.
    KeyK,
    /// The letter L.
    KeyL,
    /// The letter M.
    KeyM,
    /// The letter N.
    KeyN,
    /// The letter O.
    KeyO,
    /// The letter P.
    KeyP,
    /// The letter Q.
    KeyQ,
    /// The letter R.
    KeyR,
    /// The letter S.
    KeyS,
    /// The letter T.
    KeyT,
    /// The letter U.
    KeyU,
    /// The letter V.
    KeyV,
    /// The letter W.
    KeyW,
    /// The letter X.
    KeyX,
    /// The letter Y.
    KeyY,
    /// The letter Z.
    KeyZ,
    /// The backquote key.
    Backquote,
    /// The `-` key.
    Minus,
    /// The `=` key.
    Equal,
    /// The `[` key.
    BracketLeft,
    /// The `]` key.
    BracketRight,
    /// The backslash key.
    Backslash,
    /// The `;` key.
    Semicolon,
    /// The `'` key.
    Quote,
    /// The `,` key.
    Comma,
    /// The `.` key.
    Period,
    /// The `/` key.
    Slash,
    /// The digit 0 of the numeric pad.
    Numpad0,
    /// The digit 1 of the numeric pad.
    Numpad1,
    /// The digit 2 of the numeric pad.
    Numpad2,
    /// The digit 3 of the numeric pad.
    Numpad3,
    /// The digit 4 of the numeric pad.
    Numpad4,
    /// The digit 5 of the numeric pad.
    Numpad5,
    /// The digit 6 of the numeric pad.
    Numpad6,
    /// The digit 7 of the numeric pad.
    Numpad7,
    /// The digit 8 of the numeric pad.
    Numpad8,
    /// The digit 9 of the numeric pad.
    Numpad9,
}

/// A set of modifier keys, one flag for each.
#[derive(Debug, Clone, Copy, PartialEq, Eq, Hash, Structural)]
pub struct Modifiers {
    /// Ctrl is held.
    pub control: bool,
    /// Alt is held.
    pub alt: bool,
    /// Shift is held.
    pub shift: bool,
    /// The Windows, Command or Super key is held.
    pub meta: bool,
}

impl Modifiers {
    /// Whether `modifier` is in the set.
    pub open spec fn has(self, modifier: Modifier) -> bool {
        match modifier {
            Modifier::Control => self.control,
            Modifier::Alt => self.alt,
            Modifier::Shift => self.shift,
            Modifier::Meta => self.meta,
        }
    }

    /// Whether the set holds no modifier.
    pub open spec fn none_held(self) -> bool {
        !self.control && !self.alt && !self.shift && !self.meta
    }

    /// The set with `modifier` added.
    pub open spec fn including(self, modifier: Modifier) -> Modifiers {
        match modifier {
            Modifier::Control => Modifiers { control: true, ..self },
            Modifier::Alt => Modifiers { alt: true, ..self },
            Modifier::Shift => Modifiers { shift: true, ..self },
            Modifier::Meta => Modifiers { meta: true, ..self },
        }
    }

    /// The empty set.
    pub fn empty() -> (r: Modifiers)
        ensures
            r@ == Set::<Modifier>::empty(),
            r.none_held(),
    {
        let r = Modifiers { control: false, alt: false, shift: false, meta: false };
        assert(r@ =~= Set::<Modifier>::empty());
        r
    }

    /// Whether the set holds no modifier.
    pub fn is_empty(&self) -> (r: bool)
        ensures
            r == self.none_held(),
            r == (self@ == Set::<Modifier>::empty()),
    {
        proof {
            if self.none_held() {
                assert(self@ =~= Set::<Modifier>::empty());
            } else {
                let held = if self.control {
                    Modifier::Control
                } else if self.alt {
                    Modifier::Alt
                } else if self.shift {
                    Modifier::Shift
                } else {
                    Modifier::Meta
                };
                assert(self@.contains(held));
            }
        }
        !self.control && !self.alt && !self.shift && !self.meta
    }

    /// Whether `modifier` is in the set.
    pub fn contains(&self, modifier: Modifier) -> (r: bool)
        ensures
            r == self@.contains(modifier),
    {
        match modifier {
            Modifier::Control => self.control,
            Modifier::Alt => self.alt,
            Modifier::Shift => self.shift,
            Modifier::Meta => self.meta,
        }
    }

    /// The set with `modifier` added.
    pub fn with(self, modifier: Modifier) -> (r: Modifiers)
        ensures
            r == self.including(modifier),
            r@ == self@.insert(modifier),
    {
        let r = match modifier {
            Modifier::Control => Modifiers { control: true, ..self },
            Modifier::Alt => Modifiers { alt: true, ..self },
            Modifier::Shift => Modifiers { shift: true, ..self },
            Modifier::Meta => Modifiers { meta: true, ..self },
        };
        assert(r@ =~= self@.insert(modifier));
        r
    }
}

impl View for Modifiers {
    type V = Set<Modifier>;

    open spec fn view(&self) -> Set<Modifier> {
        Set::new(|modifier: Modifier| self.has(modifier))
    }
}

/// A shortcut in structured form: the modifiers to hold and the one key to press.
#[derive(Debug, Clone, Copy, PartialEq, Eq, Hash, Structural)]
pub struct KeyCombination {
    /// The modifiers to hold.
    pub modifiers: Modifiers,
    /// The key to press.
    pub key: Key,
}

impl KeyCombination {
    /// A combination is well formed when it holds at least one modifier.
    pub open spec fn well_formed(self) -> bool {
        !self.modifiers.none_held()
    }

    /// The combination of `modifiers` and `key`, if `modifiers` holds at least one.
    pub fn new(modifiers: Modifiers, key: Key) -> (r: Option<KeyCombination>)
        ensures
            r == if modifiers.none_held() {
                None
            } else {
                Some(KeyCombination { modifiers, key })
            },
    {
        if modifiers.is_empty() {
            None
        } else {
            Some(KeyCombination { modifiers, key })
        }
    }
}

/// Two sets of modifiers with the same members are the same value.
pub proof fn lemma_modifiers_by_members(a: Modifiers, b: Modifiers)
    ensures
        a == b <==> a@ == b@,
{
    if a@ == b@ {
        assert(a.control == a@.contains(Modifier::Control));
        assert(b.control == b@.contains(Modifier::Control));
        assert(a.alt == a@.contains(Modifier::Alt));
        assert(b.alt == b@.contains(Modifier::Alt));
        assert(a.shift == a@.contains(Modifier::Shift));
        assert(b.shift == b@.contains(Modifier::Shift));
        assert(a.meta == a@.contains(Modifier::Meta));
        assert(b.meta == b@.contains(Modifier::Meta));
    }
}

/// Two combinations are equal exactly when they hold the same modifiers and
/// the same key.
pub proof fn lemma_combination_equality(a: KeyCombination, b: KeyCombination)
    ensures
        a == b <==> a.modifiers@ == b.modifiers@ && a.key == b.key,
{
    lemma_modifiers_by_members(a.modifiers, b.modifiers);
}

} // verus!
