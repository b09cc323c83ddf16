//! What holds of the parser on every input.

use super::keys::{Key, KeyCombination, Modifier, Modifiers};
use super::parser::{name_of, names, parsed, read, ParseFault, Reading};
use super::text::{
    ascii_lowered, folded, is_whitespace, lower_ascii, pieces, trim_end, trim_start, trimmed,
};
use super::vocabulary::{token_named, Token};
use vstd::prelude::*;
use vstd::utf8::is_ascii_chars;

verus! {

/// Whether the name at `k` stands for the modifier `modifier`.
pub open spec fn modifier_at(names: Seq<Seq<char>>, k: int, modifier: Modifier) -> bool {
    0 <= k < names.len() && token_named(names[k]) == Some(Token::Modifier(modifier))
}

/// Whether the name at `k` stands for the key `key`.
pub open spec fn key_at(names: Seq<Seq<char>>, k: int, key: Key) -> bool {
    0 <= k < names.len() && token_named(names[k]) == Some(Token::Key(key))
}

/// Whether the name at `k` stands for nothing.
pub open spec fn unknown_at(names: Seq<Seq<char>>, k: int) -> bool {
    0 <= k < names.len() && token_named(names[k]) is None
}

/// Whether `k` is the place of the first name that stands for nothing.
pub open spec fn first_unknown_at(names: Seq<Seq<char>>, k: int) -> bool {
    unknown_at(names, k) && forall|j: int| 0 <= j < k ==> !unknown_at(names, j)
}

/// Whether `k` is the place of the last name that stands for a key, and that
/// key is `key`.
pub open spec fn last_key_at(names: Seq<Seq<char>>, k: int, key: Key) -> bool {
    key_at(names, k, key) && forall|j: int, other: Key| k < j ==> !key_at(names, j, other)
}

/// Whether every name stands for a modifier or a key.
pub open spec fn all_known(names: Seq<Seq<char>>) -> bool {
    forall|k: int| !unknown_at(names, k)
}

/// Whether no name stands for a key.
pub open spec fn no_key(names: Seq<Seq<char>>) -> bool {
    forall|k: int, key: Key| !key_at(names, k, key)
}

/// Whether `modifiers` holds exactly the modifiers that the names stand for.
pub open spec fn gathers(names: Seq<Seq<char>>, modifiers: Modifiers) -> bool {
    forall|modifier: Modifier|
        #[trigger] modifiers.has(modifier) <==> exists|k: int| modifier_at(names, k, modifier)
}

/// What a reading says of the names read.
pub open spec fn describes(names: Seq<Seq<char>>, outcome: Result<Reading, ParseFault>) -> bool {
    match outcome {
        Ok(reading) => {
            &&& all_known(names)
            &&& gathers(names, reading.modifiers)
            &&& match reading.key {
                Some(key) => exists|k: int| last_key_at(names, k, key),
                None => no_key(names),
            }
        },
        Err(fault) => exists|k: int|
            first_unknown_at(names, k) && fault == ParseFault::UnknownKey(names[k]),
    }
}

/// Reading gathers every modifier named, keeps the key named last, and stops
/// at the first name that stands for nothing.
pub proof fn lemma_read_describes(names: Seq<Seq<char>>)
    ensures
        describes(names, read(names)),
    decreases names.len(),
{
    if names.len() > 0 {
        let init = names.drop_last();
        let n = names.len() - 1;
        lemma_read_describes(init);
        assert(forall|k: int| 0 <= k < n ==> init[k] == names[k]);
        match read(init) {
            Err(fault) => {
                let k = choose|k: int|
                    first_unknown_at(init, k) && fault == ParseFault::UnknownKey(init[k]);
                assert forall|j: int| 0 <= j < k implies !unknown_at(names, j) by {
                    assert(!unknown_at(init, j));
                }
                assert(first_unknown_at(names, k));
            },
            Ok(before) => {
                assert forall|k: int| 0 <= k < n implies !unknown_at(names, k) by {
                    assert(!unknown_at(init, k));
                }
                match token_named(names.last()) {
                    None => {
                        assert(first_unknown_at(names, n));
                    },
                    Some(Token::Modifier(added)) => {
                        let modifiers = before.modifiers.including(added);
                        assert forall|modifier: Modifier| #[trigger]
                            modifiers.has(modifier) <==> exists|k: int|
                                modifier_at(names, k, modifier) by {
                            assert(modifiers.has(modifier) == (before.modifiers.has(modifier)
                                || modifier == added));
                            if modifiers.has(modifier) {
                                if modifier == added {
                                    assert(modifier_at(names, n, modifier));
                                } else {
                                    assert(before.modifiers.has(modifier));
                                    let k = choose|k: int| modifier_at(init, k, modifier);
                                    assert(modifier_at(names, k, modifier));
                                }
                            }
                            if exists|k: int| modifier_at(names, k, modifier) {
                                let k = choose|k: int| modifier_at(names, k, modifier);
                                if k < n {
                                    assert(modifier_at(init, k, modifier));
                                    assert(before.modifiers.has(modifier));
                                }
                            }
                        }
                        match before.key {
                            Some(key) => {
                                let k = choose|k: int| last_key_at(init, k, key);
                                assert(last_key_at(names, k, key)) by {
                                    assert forall|j: int, other: Key| k < j implies !key_at(
                                        names,
                                        j,
                                        other,
                                    ) by {
                                        if j < n {
                                            assert(!key_at(init, j, other));
                                        }
                                    }
                                }
                            },
                            None => {
                                assert forall|k: int, key: Key| !key_at(names, k, key) by {
                                    if k < n {
                                        assert(!key_at(init, k, key));
                                    }
                                }
                            },
                        }
                        assert(all_known(names));
                    },
                    Some(Token::Key(key)) => {
                        assert forall|modifier: Modifier| #[trigger]
                            before.modifiers.has(modifier) <==> exists|k: int|
                                modifier_at(names, k, modifier) by {
                            if before.modifiers.has(modifier) {
                                let k = choose|k: int| modifier_at(init, k, modifier);
                                assert(modifier_at(names, k, modifier));
                            }
                            if exists|k: int| modifier_at(names, k, modifier) {
                                let k = choose|k: int| modifier_at(names, k, modifier);
                                assert(modifier_at(init, k, modifier));
                            }
                        }
                        assert(last_key_at(names, n, key));
                        assert(all_known(names));
                    },
                }
            },
        }
    }
}

/// What the parser returns, said of the names that the string holds.
///
/// - The string is refused for an unknown name exactly when one of its names
///   stands for nothing, and the name reported is the first such.
/// - It is refused for want of a key exactly when every name is known and
///   none stands for a key.
/// - It is refused for want of a modifier exactly when every name is known,
///   one stands for a key and none for a modifier.
/// - Otherwise it stands for a combination, which holds exactly the modifiers
///   named and the key named last.
pub proof fn lemma_parsed_describes(text: Seq<char>)
    ensures
        match parsed(text) {
            Err(ParseFault::UnknownKey(name)) => exists|k: int|
                first_unknown_at(names(text), k) && name == names(text)[k],
            Err(ParseFault::MissingKey) => all_known(names(text)) && no_key(names(text)),
            Err(ParseFault::MissingModifier) => {
                &&& all_known(names(text))
                &&& exists|k: int, key: Key| key_at(names(text), k, key)
                &&& forall|k: int, modifier: Modifier| !modifier_at(names(text), k, modifier)
            },
            Ok(combination) => {
                &&& all_known(names(text))
                &&& gathers(names(text), combination.modifiers)
                &&& exists|k: int| last_key_at(names(text), k, combination.key)
                &&& combination.well_formed()
            },
        },
{
    let all = names(text);
    lemma_read_describes(all);
    match read(all) {
        Err(fault) => {},
        Ok(reading) => {
            match reading.key {
                None => {},
                Some(key) => {
                    let k = choose|k: int| last_key_at(all, k, key);
                    assert(key_at(all, k, key));
                    if reading.modifiers.none_held() {
                        assert forall|j: int, modifier: Modifier| !modifier_at(
                            all,
                            j,
                            modifier,
                        ) by {
                            assert(!reading.modifiers.has(modifier));
                        }
                    }
                },
            }
        },
    }
}

/// Which outcome the parser has, said of the names that the string holds.
pub proof fn lemma_parsed_outcome(text: Seq<char>)
    ensures
        (parsed(text) is Err && parsed(text)->Err_0 is UnknownKey) <==> !all_known(names(text)),
        parsed(text) == Err::<KeyCombination, ParseFault>(ParseFault::MissingKey) <==> all_known(
            names(text),
        ) && no_key(names(text)),
        parsed(text) == Err::<KeyCombination, ParseFault>(ParseFault::MissingModifier)
            <==> all_known(names(text)) && !no_key(names(text)) && forall|
            k: int,
            modifier: Modifier,
        | !modifier_at(names(text), k, modifier),
        parsed(text) is Ok <==> all_known(names(text)) && !no_key(names(text)) && exists|
            k: int,
            modifier: Modifier,
        | modifier_at(names(text), k, modifier),
{
    let all = names(text);
    lemma_parsed_describes(text);
    match parsed(text) {
        Err(ParseFault::UnknownKey(name)) => {
            let k = choose|k: int| first_unknown_at(all, k) && name == all[k];
            assert(unknown_at(all, k));
        },
        Err(ParseFault::MissingKey) => {},
        Err(ParseFault::MissingModifier) => {
            let (k, key) = choose|k: int, key: Key| key_at(all, k, key);
            assert(key_at(all, k, key));
        },
        Ok(combination) => {
            let k = choose|k: int| last_key_at(all, k, combination.key);
            assert(key_at(all, k, combination.key));
            let held = if combination.modifiers.control {
                Modifier::Control
            } else if combination.modifiers.alt {
                Modifier::Alt
            } else if combination.modifiers.shift {
                Modifier::Shift
            } else {
                Modifier::Meta
            };
            assert(combination.modifiers.has(held));
            let j = choose|j: int| modifier_at(all, j, held);
            assert(modifier_at(all, j, held));
        },
    }
}

/// The texts `parts` with a `+` between each two neighbours.
pub open spec fn joined(parts: Seq<Seq<char>>) -> Seq<char>
    decreases parts.len(),
{
    if parts.len() == 0 {
        Seq::empty()
    } else if parts.len() == 1 {
        parts[0]
    } else {
        joined(parts.drop_last()) + seq!['+'] + parts.last()
    }
}

/// Text that is added without a `+` in it lengthens the last piece.
pub proof fn lemma_pieces_of_longer_text(text: Seq<char>, more: Seq<char>)
    requires
        !more.contains('+'),
    ensures
        pieces(text).len() >= 1,
        pieces(text + more) == pieces(text).update(
            pieces(text).len() - 1,
            pieces(text).last() + more,
        ),
    decreases more.len(),
{
    lemma_pieces_not_empty(text);
    if more.len() == 0 {
        assert(text + more =~= text);
        assert(pieces(text).last() + more =~= pieces(text).last());
        assert(pieces(text) =~= pieces(text).update(pieces(text).len() - 1, pieces(text).last()));
    } else {
        let shorter = more.drop_last();
        assert(!shorter.contains('+')) by {
            if shorter.contains('+') {
                let i = choose|i: int| 0 <= i < shorter.len() && shorter[i] == '+';
                assert(more[i] == '+');
            }
        }
        assert(more.last() != '+') by {
            assert(more[more.len() - 1] == more.last());
        }
        lemma_pieces_of_longer_text(text, shorter);
        assert((text + more).drop_last() =~= text + shorter);
        assert((pieces(text).last() + shorter).push(more.last()) =~= pieces(text).last() + more);
        assert(pieces(text + more) =~= pieces(text).update(
            pieces(text).len() - 1,
            pieces(text).last() + more,
        ));
    }
}

/// Every text has at least one piece.
pub proof fn lemma_pieces_not_empty(text: Seq<char>)
    ensures
        pieces(text).len() >= 1,
    decreases text.len(),
{
    if text.len() > 0 {
        lemma_pieces_not_empty(text.drop_last());
    }
}

/// Splitting undoes joining: texts without a `+` in them, joined by `+`, are
/// the pieces of the result.
pub proof fn lemma_pieces_of_joined(parts: Seq<Seq<char>>)
    requires
        parts.len() >= 1,
        forall|i: int| 0 <= i < parts.len() ==> !(#[trigger] parts[i]).contains('+'),
    ensures
        pieces(joined(parts)) == parts,
    decreases parts.len(),
{
    let empty = Seq::<char>::empty();
    if parts.len() == 1 {
        lemma_pieces_of_longer_text(empty, parts[0]);
        assert(empty + parts[0] =~= parts[0]);
        assert(pieces(empty) =~= seq![empty]);
        assert(pieces(joined(parts)) =~= parts);
    } else {
        let init = parts.drop_last();
        assert(forall|i: int| 0 <= i < init.len() ==> init[i] == parts[i]);
        lemma_pieces_of_joined(init);
        let before = joined(init) + seq!['+'];
        assert(before.drop_last() =~= joined(init));
        assert(pieces(before) == init.push(empty));
        lemma_pieces_of_longer_text(before, parts.last());
        assert(empty + parts.last() =~= parts.last());
        assert(pieces(joined(parts)) =~= parts);
    }
}

/// A string of the form `modifier(+modifier)*+key` stands for a combination:
/// the one with exactly the modifiers named and with the key named.
///
/// `parts` are the texts between the `+` signs: each but the last holds the
/// name of a modifier, the last holds the name of a key. The names may be
/// written in any case and with whitespace around them.
pub proof fn lemma_modifiers_then_key(parts: Seq<Seq<char>>, key: Key)
    requires
        parts.len() >= 2,
        forall|i: int| 0 <= i < parts.len() ==> !(#[trigger] parts[i]).contains('+'),
        forall|i: int|
            0 <= i < parts.len() - 1 ==> token_named(name_of(#[trigger] parts[i])) is Some
                && token_named(name_of(parts[i]))->0 is Modifier,
        token_named(name_of(parts.last())) == Some(Token::Key(key)),
    ensures
        parsed(joined(parts)) is Ok,
        parsed(joined(parts))->Ok_0.key == key,
        forall|modifier: Modifier| #[trigger]
            parsed(joined(parts))->Ok_0.modifiers.has(modifier) <==> exists|i: int|
                0 <= i < parts.len() - 1 && token_named(name_of(#[trigger] parts[i])) == Some(
                    Token::Modifier(modifier),
                ),
{
    let text = joined(parts);
    let all = names(text);
    let n = parts.len() - 1;
    lemma_pieces_of_joined(parts);
    assert(all.len() == parts.len());
    assert(forall|i: int| 0 <= i < parts.len() ==> all[i] == name_of(parts[i]));
    lemma_parsed_describes(text);
    assert(all[n] == name_of(parts.last()));
    assert(key_at(all, n, key));
    assert(modifier_at(all, 0, token_named(name_of(parts[0]))->0->Modifier_0));
    assert forall|k: int| !unknown_at(all, k) by {
        if 0 <= k < n {
            assert(token_named(name_of(parts[k])) is Some);
        }
    }
    match parsed(text) {
        Ok(combination) => {
            let k = choose|k: int| last_key_at(all, k, combination.key);
            if k < n {
                assert(token_named(name_of(parts[k])) is Some);
            }
            assert(k == n);
            assert forall|modifier: Modifier| #[trigger]
                combination.modifiers.has(modifier) <==> exists|i: int|
                    0 <= i < parts.len() - 1 && token_named(name_of(#[trigger] parts[i])) == Some(
                        Token::Modifier(modifier),
                    ) by {
                if combination.modifiers.has(modifier) {
                    let i = choose|i: int| modifier_at(all, i, modifier);
                    assert(0 <= i < n && token_named(name_of(parts[i])) == Some(
                        Token::Modifier(modifier),
                    ));
                }
                if exists|i: int|
                    0 <= i < parts.len() - 1 && token_named(name_of(#[trigger] parts[i])) == Some(
                        Token::Modifier(modifier),
                    ) {
                    let i = choose|i: int|
                        0 <= i < parts.len() - 1 && token_named(name_of(#[trigger] parts[i]))
                            == Some(Token::Modifier(modifier));
                    assert(modifier_at(all, i, modifier));
                }
            }
        },
        Err(ParseFault::UnknownKey(name)) => {
            assert(false);
        },
        Err(ParseFault::MissingKey) => {
            assert(false);
        },
        Err(ParseFault::MissingModifier) => {
            assert(false);
        },
    }
}

/// Whether every character of `text` is whitespace.
pub open spec fn is_blank(text: Seq<char>) -> bool {
    forall|i: int| 0 <= i < text.len() ==> is_whitespace(#[trigger] text[i])
}

/// Whitespace before a text is trimmed away.
pub proof fn lemma_trim_start_of_padded(pad: Seq<char>, text: Seq<char>)
    requires
        is_blank(pad),
    ensures
        trim_start(pad + text) == trim_start(text),
    decreases pad.len(),
{
    if pad.len() == 0 {
        assert(pad + text =~= text);
    } else {
        assert((pad + text).first() == pad[0]);
        assert((pad + text).drop_first() =~= pad.drop_first() + text);
        lemma_trim_start_of_padded(pad.drop_first(), text);
    }
}

/// Whitespace after a text is trimmed away.
pub proof fn lemma_trim_end_of_padded(text: Seq<char>, pad: Seq<char>)
    requires
        is_blank(pad),
    ensures
        trim_end(text + pad) == trim_end(text),
    decreases pad.len(),
{
    if pad.len() == 0 {
        assert(text + pad =~= text);
    } else {
        assert((text + pad).last() == pad.last());
        assert((text + pad).drop_last() =~= text + pad.drop_last());
        lemma_trim_end_of_padded(text, pad.drop_last());
    }
}

/// Whitespace around a text makes no difference to what is left of it when
/// trimmed, and so none to the name that a piece of a shortcut string holds.
pub proof fn lemma_padding_is_ignored(before: Seq<char>, text: Seq<char>, after: Seq<char>)
    requires
        is_blank(before),
        is_blank(after),
    ensures
        trimmed(before + text + after) == trimmed(text),
        name_of(before + text + after) == name_of(text),
{
    assert(before + text + after =~= before + (text + after));
    lemma_trim_start_of_padded(before, text + after);
    lemma_trim_of_padded_end(text, after);
}

/// Whitespace after a text makes no difference to what is left of it when
/// trimmed.
proof fn lemma_trim_of_padded_end(text: Seq<char>, pad: Seq<char>)
    requires
        is_blank(pad),
    ensures
        trimmed(text + pad) == trimmed(text),
    decreases text.len(),
{
    if text.len() == 0 {
        assert(text + pad =~= pad);
        lemma_trim_start_of_padded(pad, text);
        assert(pad + text =~= pad);
    } else if is_whitespace(text.first()) {
        assert((text + pad).first() == text.first());
        assert((text + pad).drop_first() =~= text.drop_first() + pad);
        lemma_trim_of_padded_end(text.drop_first(), pad);
    } else {
        assert((text + pad).first() == text.first());
        lemma_trim_end_of_padded(text, pad);
    }
}

/// Lowering the ASCII letters of a text lowers them in each of its pieces,
/// and changes the pieces in no other way.
pub proof fn lemma_pieces_of_lowered(text: Seq<char>)
    ensures
        pieces(ascii_lowered(text)).len() == pieces(text).len(),
        forall|k: int|
            0 <= k < pieces(text).len() ==> #[trigger] pieces(ascii_lowered(text))[k]
                == ascii_lowered(pieces(text)[k]),
    decreases text.len(),
{
    let lowered = ascii_lowered(text);
    if text.len() == 0 {
        assert(ascii_lowered(Seq::<char>::empty()) =~= Seq::<char>::empty());
    } else {
        let init = text.drop_last();
        lemma_pieces_of_lowered(init);
        lemma_pieces_not_empty(init);
        assert(lowered.drop_last() =~= ascii_lowered(init));
        assert(lowered.last() == lower_ascii(text.last()));
        let before = pieces(init);
        if text.last() == '+' {
            assert(ascii_lowered(Seq::<char>::empty()) =~= Seq::<char>::empty());
        } else {
            assert(ascii_lowered(before.last().push(text.last())) =~= ascii_lowered(
                before.last(),
            ).push(lower_ascii(text.last())));
        }
    }
}

/// Lowering the ASCII letters of a text and trimming it can be done in
/// either order.
pub proof fn lemma_trimmed_of_lowered(text: Seq<char>)
    ensures
        trim_start(ascii_lowered(text)) == ascii_lowered(trim_start(text)),
        trim_end(ascii_lowered(text)) == ascii_lowered(trim_end(text)),
        trimmed(ascii_lowered(text)) == ascii_lowered(trimmed(text)),
    decreases text.len(),
{
    lemma_trim_start_of_lowered(text);
    lemma_trim_end_of_lowered(text);
    lemma_trim_end_of_lowered(trim_start(text));
}

proof fn lemma_trim_start_of_lowered(text: Seq<char>)
    ensures
        trim_start(ascii_lowered(text)) == ascii_lowered(trim_start(text)),
    decreases text.len(),
{
    if text.len() > 0 && is_whitespace(text.first()) {
        assert(ascii_lowered(text).drop_first() =~= ascii_lowered(text.drop_first()));
        lemma_trim_start_of_lowered(text.drop_first());
    }
}

proof fn lemma_trim_end_of_lowered(text: Seq<char>)
    ensures
        trim_end(ascii_lowered(text)) == ascii_lowered(trim_end(text)),
    decreases text.len(),
{
    if text.len() > 0 && is_whitespace(text.last()) {
        assert(ascii_lowered(text).drop_last() =~= ascii_lowered(text.drop_last()));
        lemma_trim_end_of_lowered(text.drop_last());
    }
}

/// The pieces of an ASCII text are ASCII, and so is each of them trimmed.
pub proof fn lemma_pieces_of_ascii(text: Seq<char>)
    requires
        is_ascii_chars(text),
    ensures
        forall|k: int|
            0 <= k < pieces(text).len() ==> is_ascii_chars(#[trigger] pieces(text)[k])
                && is_ascii_chars(trimmed(pieces(text)[k])),
    decreases text.len(),
{
    if text.len() > 0 {
        let init = text.drop_last();
        assert(is_ascii_chars(init)) by {
            assert(forall|i: int| 0 <= i < init.len() ==> init[i] == text[i]);
        }
        lemma_pieces_of_ascii(init);
        lemma_pieces_not_empty(init);
        assert('\0' <= text[text.len() - 1] <= '\u{7f}');
    }
    assert forall|k: int| 0 <= k < pieces(text).len() implies is_ascii_chars(
        #[trigger] pieces(text)[k],
    ) && is_ascii_chars(trimmed(pieces(text)[k])) by {
        let piece = pieces(text)[k];
        if text.len() > 0 {
            let before = pieces(text.drop_last());
            if text.last() != '+' && k == before.len() - 1 {
                assert(is_ascii_chars(before.last()));
                assert forall|i: int| 0 <= i < piece.len() implies '\0' <= #[trigger] piece[i]
                    <= '\u{7f}' by {
                    if i < before.last().len() {
                        assert(piece[i] == before.last()[i]);
                    }
                }
            } else if k < before.len() {
                assert(piece == before[k]);
            }
        }
        lemma_trimmed_of_ascii(piece);
    }
}

/// An ASCII text is ASCII when trimmed.
pub proof fn lemma_trimmed_of_ascii(text: Seq<char>)
    requires
        is_ascii_chars(text),
    ensures
        is_ascii_chars(trim_start(text)),
        is_ascii_chars(trim_end(text)),
        is_ascii_chars(trimmed(text)),
{
    lemma_trim_start_is_part(text);
    lemma_trim_end_is_part(text);
    lemma_trim_end_is_part(trim_start(text));
}

proof fn lemma_trim_start_is_part(text: Seq<char>)
    requires
        is_ascii_chars(text),
    ensures
        is_ascii_chars(trim_start(text)),
    decreases text.len(),
{
    if text.len() > 0 && is_whitespace(text.first()) {
        let rest = text.drop_first();
        assert(is_ascii_chars(rest)) by {
            assert(forall|i: int| 0 <= i < rest.len() ==> rest[i] == text[i + 1]);
        }
        lemma_trim_start_is_part(rest);
    }
}

proof fn lemma_trim_end_is_part(text: Seq<char>)
    requires
        is_ascii_chars(text),
    ensures
        is_ascii_chars(trim_end(text)),
    decreases text.len(),
{
    if text.len() > 0 && is_whitespace(text.last()) {
        let rest = text.drop_last();
        assert(is_ascii_chars(rest)) by {
            assert(forall|i: int| 0 <= i < rest.len() ==> rest[i] == text[i]);
        }
        lemma_trim_end_is_part(rest);
    }
}

/// Folding an ASCII word gives the same whether or not its letters were
/// lowered before.
pub proof fn lemma_folded_of_lowered(word: Seq<char>)
    requires
        is_ascii_chars(word),
    ensures
        is_ascii_chars(ascii_lowered(word)),
        folded(ascii_lowered(word)) == folded(word),
{
    assert forall|i: int| 0 <= i < word.len() implies '\0' <= #[trigger] ascii_lowered(word)[i]
        <= '\u{7f}' by {
        assert('\0' <= word[i] <= '\u{7f}');
    }
    assert(ascii_lowered(ascii_lowered(word)) =~= ascii_lowered(word));
}

/// The case of ASCII letters makes no difference: an ASCII string and the
/// same string with its capital letters lowered have the same outcome.
pub proof fn lemma_case_is_ignored(text: Seq<char>)
    requires
        is_ascii_chars(text),
    ensures
        names(ascii_lowered(text)) == names(text),
        parsed(ascii_lowered(text)) == parsed(text),
{
    let lowered = ascii_lowered(text);
    lemma_pieces_of_lowered(text);
    lemma_pieces_of_ascii(text);
    assert forall|k: int| 0 <= k < pieces(text).len() implies name_of(pieces(lowered)[k])
        == name_of(pieces(text)[k]) by {
        let piece = pieces(text)[k];
        assert(pieces(lowered)[k] == ascii_lowered(piece));
        lemma_trimmed_of_lowered(piece);
        lemma_folded_of_lowered(trimmed(piece));
    }
    assert(names(lowered) =~= names(text));
}

/// Two ASCII strings that differ in the case of their letters only have the
/// same outcome.
pub proof fn lemma_same_but_for_case(first: Seq<char>, second: Seq<char>)
    requires
        is_ascii_chars(first),
        is_ascii_chars(second),
        ascii_lowered(first) == ascii_lowered(second),
    ensures
        parsed(first) == parsed(second),
{
    lemma_case_is_ignored(first);
    lemma_case_is_ignored(second);
}

} // verus!
