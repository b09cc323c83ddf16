use qwik_ask::shortcuts::keys::{Key, Modifier};
use qwik_ask::shortcuts::text::{fold_case, split_plus, text_chars, trim, whitespace};
use qwik_ask::shortcuts::vocabulary::{token_of, Token};

#[test]
fn splitting_at_plus() {
    assert_eq!(split_plus("Alt+Shift+Space"), vec!["Alt", "Shift", "Space"]);
    assert_eq!(split_plus("Space"), vec!["Space"]);
    assert_eq!(split_plus(""), vec![""]);
    assert_eq!(split_plus("+"), vec!["", ""]);
    assert_eq!(split_plus("a++b+"), vec!["a", "", "b", ""]);
    assert_eq!(split_plus(" a + b "), vec![" a ", " b "]);
    assert_eq!(split_plus("\u{e4}+\u{4e2d}\u{6587}+x"), vec!["\u{e4}", "\u{4e2d}\u{6587}", "x"]);
}

#[test]
fn splitting_as_std_does() {
    for text in ["", "+", "++", "a", "a+b", "+a", "a+", "Ctrl + K", "\u{1f600}+\u{e9}+", "a+b+c+d"] {
        let expected: Vec<&str> = text.split('+').collect();
        assert_eq!(split_plus(text), expected);
    }
}

#[test]
fn trimming() {
    assert_eq!(trim("  Alt  "), "Alt");
    assert_eq!(trim("Alt"), "Alt");
    assert_eq!(trim(""), "");
    assert_eq!(trim(" \t\r\n"), "");
    assert_eq!(trim(" page up "), "page up");
    assert_eq!(trim("\u{a0}\u{2003}k\u{3000}\u{85}"), "k");
    assert_eq!(trim("\u{200b}k\u{200b}"), "\u{200b}k\u{200b}");
}

#[test]
fn whitespace_is_what_std_takes_for_it() {
    let mut c = 0u32;
    while c <= 0x10ffff {
        if let Some(ch) = char::from_u32(c) {
            assert_eq!(whitespace(ch), ch.is_whitespace(), "U+{:04X}", c);
        }
        c += 1;
    }
}

#[test]
fn trimming_as_std_does() {
    for text in ["", " ", "a", " a", "a ", " a b ", "\n\ta\u{2028}", "\u{1680}\u{e9}\u{205f}", "\u{feff}a"] {
        assert_eq!(trim(text), text.trim());
    }
}

#[test]
fn folding_case() {
    assert_eq!(fold_case("ALT"), "alt");
    assert_eq!(fold_case("Shift"), "shift");
    assert_eq!(fold_case("f12"), "f12");
    assert_eq!(fold_case("[]{}@`"), "[]{}@`");
    assert_eq!(fold_case(""), "");
    assert_eq!(fold_case("\u{212a}"), "k");
    assert_eq!(fold_case("\u{c4}B"), "\u{e4}b");
    assert_eq!(fold_case("\u{39f}\u{394}\u{39f}\u{3a3}"), "\u{3bf}\u{3b4}\u{3bf}\u{3c2}");
}

#[test]
fn folding_case_as_std_does() {
    let mut ascii = String::new();
    for c in 0u8..128 {
        ascii.push(c as char);
    }
    assert_eq!(fold_case(&ascii), ascii.to_lowercase());
    for text in ["Ctrl", "\u{130}", "Stra\u{1e9e}e", "\u{1c4}", "A\u{3a3}", "\u{3a3}"] {
        assert_eq!(fold_case(text), text.to_lowercase());
    }
}

#[test]
fn characters_of_a_text() {
    assert_eq!(text_chars("a+\u{e9}\u{1f600}"), vec!['a', '+', '\u{e9}', '\u{1f600}']);
    assert_eq!(text_chars(""), Vec::<char>::new());
}

#[test]
fn tokens_by_name() {
    assert_eq!(token_of("ctrl"), Some(Token::Modifier(Modifier::Control)));
    assert_eq!(token_of("command"), Some(Token::Modifier(Modifier::Meta)));
    assert_eq!(token_of("space"), Some(Token::Key(Key::Space)));
    assert_eq!(token_of("\\"), Some(Token::Key(Key::Backslash)));
    assert_eq!(token_of("numpad7"), Some(Token::Key(Key::Numpad7)));
    // Names are matched as they are.
    assert_eq!(token_of("Ctrl"), None);
    assert_eq!(token_of(" ctrl"), None);
    assert_eq!(token_of("ctr"), None);
    assert_eq!(token_of("ctrll"), None);
    assert_eq!(token_of(""), None);
    assert_eq!(token_of("+"), None);
}
