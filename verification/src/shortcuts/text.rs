//! Text handling for shortcut strings: splitting at `+`, trimming whitespace
//! and folding case.

use vstd::prelude::*;
use vstd::string::*;
use vstd::utf8::is_ascii_chars;

verus! {

/// Whether `c` is whitespace: one of the characters that Unicode marks
/// `White_Space`.
pub open spec fn is_whitespace(c: char) -> bool {
    let n = c as u32;
    ||| 0x09 <= n <= 0x0D
    ||| n == 0x20
    ||| n == 0x85
    ||| n == 0xA0
    ||| n == 0x1680
    ||| 0x2000 <= n <= 0x200A
    ||| n == 0x2028
    ||| n == 0x2029
    ||| n == 0x202F
    ||| n == 0x205F
    ||| n == 0x3000
}

/// `text` without its leading whitespace.
pub open spec fn trim_start(text: Seq<char>) -> Seq<char>
    decreases text.len(),
{
    if text.len() > 0 && is_whitespace(text.first()) {
        trim_start(text.drop_first())
    } else {
        text
    }
}

/// `text` without its trailing whitespace.
pub open spec fn trim_end(text: Seq<char>) -> Seq<char>
    decreases text.len(),
{
    if text.len() > 0 && is_whitespace(text.last()) {
        trim_end(text.drop_last())
    } else {
        text
    }
}

/// `text` without its leading and trailing whitespace.
pub open spec fn trimmed(text: Seq<char>) -> Seq<char> {
    trim_end(trim_start(text))
}

/// The pieces of `text` that its `+` signs separate, in order. A text without
/// `+` is one piece; a `+` at either end, or next to another, bounds an empty
/// piece.
pub open spec fn pieces(text: Seq<char>) -> Seq<Seq<char>>
    decreases text.len(),
{
    if text.len() == 0 {
        seq![Seq::empty()]
    } else {
        let before = pieces(text.drop_last());
        if text.last() == '+' {
            before.push(Seq::empty())
        } else {
            before.update(before.len() - 1, before.last().push(text.last()))
        }
    }
}

/// The lower-case form of an ASCII capital letter; any other character
/// unchanged.
pub open spec fn lower_ascii(c: char) -> char {
    if 'A' <= c <= 'Z' {
        ((c as u8) + 32) as char
    } else {
        c
    }
}

/// `word` with each of its ASCII capital letters in lower case.
pub open spec fn ascii_lowered(word: Seq<char>) -> Seq<char> {
    Seq::new(word.len(), |i: int| lower_ascii(word[i]))
}

/// What `str::to_lowercase` returns for a string of the characters `word`:
/// its lower-case form by Unicode's rules.
pub uninterp spec fn lowercase_of(word: Seq<char>) -> Seq<char>;

/// `word` in lower case. An ASCII word has its capital letters replaced; a
/// word with other characters is lowered by Unicode's rules.
pub open spec fn folded(word: Seq<char>) -> Seq<char> {
    if is_ascii_chars(word) {
        ascii_lowered(word)
    } else {
        lowercase_of(word)
    }
}

/// Calls `str::to_ascii_lowercase`, which maps the ASCII letters `A` to `Z`
/// to `a` to `z` and leaves every other character as it is.
#[verifier::external_body]
fn ascii_lowercase(word: &str) -> (lowered: String)
    ensures
        lowered@ == ascii_lowered(word@),
{
    word.to_ascii_lowercase()
}

/// Calls `str::to_lowercase`. Nothing is stated of the result but that it is
/// the one std computes for these characters.
#[verifier::external_body]
fn lowercase(word: &str) -> (lowered: String)
    ensures
        lowered@ == lowercase_of(word@),
{
    word.to_lowercase()
}

/// Whether `c` is whitespace.
pub fn whitespace(c: char) -> (r: bool)
    ensures
        r == is_whitespace(c),
{
    let n: u32 = c as u32;
    (0x09 <= n && n <= 0x0D) || n == 0x20 || n == 0x85 || n == 0xA0 || n == 0x1680 || (0x2000 <= n
        && n <= 0x200A) || n == 0x2028 || n == 0x2029 || n == 0x202F || n == 0x205F || n == 0x3000
}

/// The characters of `text`, in order.
pub fn text_chars(text: &str) -> (chars: Vec<char>)
    ensures
        chars@ == text@,
{
    let mut chars: Vec<char> = Vec::new();
    for c in it: text.chars()
        invariant
            chars@ == it.seq().take(it.index() as int),
            it.seq() == text@,
    {
        chars.push(c);
    }
    chars
}

/// Reading on from the start of a piece to a later place without meeting a `+`
/// reaches the pieces of the longer prefix: the last one has grown.
proof fn lemma_pieces_extend(text: Seq<char>, start: int, end: int, done: Seq<Seq<char>>)
    requires
        0 <= start <= end <= text.len(),
        pieces(text.take(start)) == done.push(Seq::empty()),
        forall|j: int| start <= j < end ==> text[j] != '+',
    ensures
        pieces(text.take(end)) == done.push(text.subrange(start, end)),
    decreases end - start,
{
    if end == start {
        assert(text.subrange(start, end) =~= Seq::<char>::empty());
    } else {
        lemma_pieces_extend(text, start, end - 1, done);
        assert(text.take(end).drop_last() =~= text.take(end - 1));
        assert(text.subrange(start, end - 1).push(text[end - 1]) =~= text.subrange(start, end));
        assert(pieces(text.take(end)) =~= done.push(text.subrange(start, end)));
    }
}

/// Splits `text` at each `+`.
pub fn split_plus<'a>(text: &'a str) -> (parts: Vec<&'a str>)
    ensures
        parts@.len() == pieces(text@).len(),
        forall|k: int| 0 <= k < parts@.len() ==> (#[trigger] parts@[k])@ == pieces(text@)[k],
{
    let chars = text_chars(text);
    let n = chars.len();
    let mut parts: Vec<&'a str> = Vec::new();
    let ghost mut done: Seq<Seq<char>> = Seq::empty();
    let mut start: usize = 0;
    let mut i: usize = 0;
    while i < n
        invariant
            chars@ == text@,
            n == chars.len(),
            0 <= start <= i <= n,
            pieces(text@.take(start as int)) == done.push(Seq::empty()),
            forall|j: int| start <= j < i ==> text@[j] != '+',
            parts@.len() == done.len(),
            forall|k: int| 0 <= k < parts@.len() ==> (#[trigger] parts@[k])@ == done[k],
        decreases n - i,
    {
        if chars[i] == '+' {
            let part = text.substring_char(start, i);
            proof {
                lemma_pieces_extend(text@, start as int, i as int, done);
                assert(text@.take(i + 1).drop_last() =~= text@.take(i as int));
                done = done.push(part@);
            }
            parts.push(part);
            start = i + 1;
        }
        i += 1;
    }
    let part = text.substring_char(start, n);
    proof {
        lemma_pieces_extend(text@, start as int, n as int, done);
        assert(text@.take(n as int) =~= text@);
    }
    parts.push(part);
    parts
}

/// `text` without its leading and trailing whitespace.
pub fn trim<'a>(text: &'a str) -> (r: &'a str)
    ensures
        r@ == trimmed(text@),
{
    let chars = text_chars(text);
    let n = chars.len();
    let mut from: usize = 0;
    assert(text@.subrange(0, n as int) =~= text@);
    while from < n && whitespace(chars[from])
        invariant
            chars@ == text@,
            n == chars.len(),
            0 <= from <= n,
            trim_start(text@) == trim_start(text@.subrange(from as int, n as int)),
        decreases n - from,
    {
        assert(text@.subrange(from as int, n as int).drop_first() =~= text@.subrange(
            from + 1,
            n as int,
        ));
        from += 1;
    }
    let ghost rest = text@.subrange(from as int, n as int);
    assert(trim_start(text@) == rest);
    let mut to: usize = n;
    while to > from && whitespace(chars[to - 1])
        invariant
            chars@ == text@,
            n == chars.len(),
            from <= to <= n,
            trim_end(rest) == trim_end(text@.subrange(from as int, to as int)),
        decreases to - from,
    {
        assert(text@.subrange(from as int, to as int).drop_last() =~= text@.subrange(
            from as int,
            to - 1,
        ));
        to -= 1;
    }
    text.substring_char(from, to)
}

/// `word` in lower case.
pub fn fold_case(word: &str) -> (r: String)
    ensures
        r@ == folded(word@),
{
    if word.is_ascii() {
        ascii_lowercase(word)
    } else {
        lowercase(word)
    }
}

} // verus!
