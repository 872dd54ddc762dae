//! Plain text operations on sequences of characters: literal search,
//! replacement and splitting.

use vstd::prelude::*;
use crate::bridge::whitespace;

verus! {

/// The characters of a string slice, in order.
pub fn to_chars(s: &str) -> (chars: Vec<char>)
    ensures
        chars@ == s@,
{
    let mut chars: Vec<char> = Vec::new();
    for c in it: s.chars()
        invariant
            it.seq() == s@,
            chars@ == it.seq().take(it.index() as int),
    {
        chars.push(c);
        assert(it.seq().take(it.index() + 1) =~= it.seq().take(it.index() as int).push(c));
    }
    assert(s@.take(s@.len() as int) =~= s@);
    chars
}

/// The string made of the given characters, in order.
pub fn from_chars(chars: &[char]) -> (s: String)
    ensures
        s@ == chars@,
{
    let mut s = String::new();
    let mut i: usize = 0;
    while i < chars.len()
        invariant
            i <= chars.len(),
            s@ == chars@.take(i as int),
        decreases chars.len() - i,
    {
        s.push(chars[i]);
        assert(chars@.take(i + 1) =~= chars@.take(i as int).push(chars@[i as int]));
        i += 1;
    }
    assert(chars@.take(chars.len() as int) =~= chars@);
    s
}

/// Whether `needle` stands in `hay` at position `i`.
pub open spec fn occurs_at(hay: Seq<char>, needle: Seq<char>, i: int) -> bool {
    &&& 0 <= i
    &&& i + needle.len() <= hay.len()
    &&& hay.subrange(i, i + needle.len()) == needle
}

/// Tests whether `needle` stands in `hay` at position `i`.
pub fn matches_at(hay: &[char], needle: &[char], i: usize) -> (found: bool)
    ensures
        found == occurs_at(hay@, needle@, i as int),
{
    if needle.len() > hay.len() || i > hay.len() - needle.len() {
        return false;
    }
    let mut k: usize = 0;
    while k < needle.len()
        invariant
            k <= needle.len(),
            i + needle.len() <= hay.len(),
            forall|j: int| 0 <= j < k ==> hay@[i + j] == needle@[j],
        decreases needle.len() - k,
    {
        if hay[i + k] != needle[k] {
            assert(hay@.subrange(i as int, i + needle.len())[k as int] != needle@[k as int]);
            return false;
        }
        k += 1;
    }
    assert(hay@.subrange(i as int, i + needle.len()) =~= needle@);
    true
}

/// The text from position `start` on, with every occurrence of `from`
/// replaced by `to`: occurrences are taken from left to right and do not
/// overlap.
pub open spec fn replaced_from(text: Seq<char>, from: Seq<char>, to: Seq<char>, start: int) -> Seq<
    char,
>
    decreases text.len() - start,
{
    if start < 0 || start >= text.len() || from.len() == 0 {
        Seq::empty()
    } else if occurs_at(text, from, start) {
        to + replaced_from(text, from, to, start + from.len())
    } else {
        seq![text[start]] + replaced_from(text, from, to, start + 1)
    }
}

/// The text with every occurrence of `from` replaced by `to`. An empty
/// `from` occurs nowhere.
pub open spec fn replaced(text: Seq<char>, from: Seq<char>, to: Seq<char>) -> Seq<char> {
    if from.len() == 0 {
        text
    } else {
        replaced_from(text, from, to, 0)
    }
}

/// Replaces every occurrence of `from` in `text` by `to`.
pub fn replace_all(text: &[char], from: &[char], to: &[char]) -> (out: Vec<char>)
    ensures
        out@ == replaced(text@, from@, to@),
{
    let mut out: Vec<char> = Vec::new();
    if from.len() == 0 {
        out.extend_from_slice(text);
        return out;
    }
    let mut i: usize = 0;
    while i < text.len()
        invariant
            i <= text.len(),
            from.len() > 0,
            replaced_from(text@, from@, to@, 0) == out@ + replaced_from(text@, from@, to@, i as int),
        decreases text.len() - i,
    {
        let ghost rest = replaced_from(text@, from@, to@, i as int);
        if matches_at(text, from, i) {
            let ghost tail = replaced_from(text@, from@, to@, i + from.len());
            assert(rest == to@ + tail);
            assert(out@ + (to@ + tail) =~= (out@ + to@) + tail);
            out.extend_from_slice(to);
            i += from.len();
        } else {
            let ghost tail = replaced_from(text@, from@, to@, i + 1);
            assert(rest == seq![text@[i as int]] + tail);
            assert(out@ + (seq![text@[i as int]] + tail) =~= out@.push(text@[i as int]) + tail);
            out.push(text[i]);
            i += 1;
        }
    }
    assert(out@ + Seq::<char>::empty() =~= out@);
    out
}

/// The text from position `start` on without the first occurrence of
/// `part` at or after `start`; all of it where `part` does not occur.
pub open spec fn without_first_from(text: Seq<char>, part: Seq<char>, start: int) -> Seq<char>
    decreases text.len() - start,
{
    if start < 0 || start >= text.len() {
        Seq::empty()
    } else if occurs_at(text, part, start) {
        text.subrange(start + part.len(), text.len() as int)
    } else {
        seq![text[start]] + without_first_from(text, part, start + 1)
    }
}

/// The text without the first occurrence of `part`. An empty `part` occurs
/// nowhere.
pub open spec fn without_first(text: Seq<char>, part: Seq<char>) -> Seq<char> {
    if part.len() == 0 {
        text
    } else {
        without_first_from(text, part, 0)
    }
}

/// Removes the first occurrence of `part` from `text`.
pub fn remove_first(text: &[char], part: &[char]) -> (out: Vec<char>)
    ensures
        out@ == without_first(text@, part@),
{
    let mut out: Vec<char> = Vec::new();
    if part.len() == 0 {
        out.extend_from_slice(text);
        return out;
    }
    let mut i: usize = 0;
    while i < text.len()
        invariant
            i <= text.len(),
            part.len() > 0,
            without_first_from(text@, part@, 0) == out@ + without_first_from(
                text@,
                part@,
                i as int,
            ),
        decreases text.len() - i,
    {
        if matches_at(text, part, i) {
            let rest = copy_range(text, i + part.len(), text.len());
            out.extend_from_slice(rest.as_slice());
            return out;
        }
        let ghost tail = without_first_from(text@, part@, i + 1);
        assert(out@ + (seq![text@[i as int]] + tail) =~= out@.push(text@[i as int]) + tail);
        out.push(text[i]);
        i += 1;
    }
    assert(out@ + Seq::<char>::empty() =~= out@);
    out
}

/// The pieces of the text that lie between occurrences of `sep`, from the
/// piece that begins at `piece_start` on, when the search for the next
/// occurrence has reached position `i`.
pub open spec fn pieces_from(text: Seq<char>, sep: Seq<char>, piece_start: int, i: int) -> Seq<
    Seq<char>,
>
    decreases text.len() - i,
{
    if i < 0 || i >= text.len() || sep.len() == 0 {
        seq![text.subrange(piece_start, text.len() as int)]
    } else if occurs_at(text, sep, i) {
        seq![text.subrange(piece_start, i)] + pieces_from(text, sep, i + sep.len(), i + sep.len())
    } else {
        pieces_from(text, sep, piece_start, i + 1)
    }
}

/// The pieces of the text that lie between occurrences of `sep`, which are
/// taken from left to right and do not overlap. A text with `n` occurrences
/// has `n + 1` pieces, empty ones included; an empty `sep` occurs nowhere.
pub open spec fn pieces(text: Seq<char>, sep: Seq<char>) -> Seq<Seq<char>> {
    pieces_from(text, sep, 0, 0)
}

/// The character sequences that a vector of pieces holds.
pub open spec fn pieces_view(pieces: Seq<Vec<char>>) -> Seq<Seq<char>> {
    pieces.map_values(|p: Vec<char>| p@)
}

/// Copies the characters of `text` from `from` up to `to`.
pub fn copy_range(text: &[char], from: usize, to: usize) -> (out: Vec<char>)
    requires
        from <= to <= text.len(),
    ensures
        out@ == text@.subrange(from as int, to as int),
{
    let mut out: Vec<char> = Vec::new();
    let mut i: usize = from;
    while i < to
        invariant
            from <= i <= to <= text.len(),
            out@ == text@.subrange(from as int, i as int),
        decreases to - i,
    {
        out.push(text[i]);
        assert(text@.subrange(from as int, i + 1) =~= text@.subrange(from as int, i as int).push(
            text@[i as int],
        ));
        i += 1;
    }
    out
}

/// Splits `text` at every occurrence of `sep`.
pub fn split_on(text: &[char], sep: &[char]) -> (out: Vec<Vec<char>>)
    ensures
        pieces_view(out@) == pieces(text@, sep@),
{
    let mut out: Vec<Vec<char>> = Vec::new();
    let mut piece_start: usize = 0;
    let mut i: usize = 0;
    assert(pieces_view(out@) =~= Seq::<Seq<char>>::empty());
    while i < text.len() && sep.len() > 0
        invariant
            piece_start <= i <= text.len(),
            pieces(text@, sep@) == pieces_view(out@) + pieces_from(
                text@,
                sep@,
                piece_start as int,
                i as int,
            ),
        decreases text.len() - i,
    {
        if matches_at(text, sep, i) {
            let ghost before = out@;
            let ghost tail = pieces_from(text@, sep@, i + sep.len(), i + sep.len());
            let piece = copy_range(text, piece_start, i);
            out.push(piece);
            assert(pieces_view(out@) =~= pieces_view(before).push(piece@));
            assert(pieces_view(before) + (seq![piece@] + tail) =~= pieces_view(before).push(
                piece@,
            ) + tail);
            i += sep.len();
            piece_start = i;
        } else {
            i += 1;
        }
    }
    let ghost before = out@;
    let last = copy_range(text, piece_start, text.len());
    out.push(last);
    assert(pieces_view(out@) =~= pieces_view(before).push(last@));
    assert(pieces_view(before) + seq![last@] =~= pieces_view(before).push(last@));
    out
}

/// Whether the text holds nothing but whitespace.
pub open spec fn blank(text: Seq<char>) -> bool {
    forall|i: int| 0 <= i < text.len() ==> whitespace(#[trigger] text[i])
}

/// Tests whether the text holds nothing but whitespace.
pub fn is_blank(text: &[char]) -> (b: bool)
    ensures
        b == blank(text@),
{
    let mut i: usize = 0;
    while i < text.len()
        invariant
            i <= text.len(),
            forall|j: int| 0 <= j < i ==> whitespace(#[trigger] text@[j]),
        decreases text.len() - i,
    {
        if !text[i].is_whitespace() {
            return false;
        }
        i += 1;
    }
    true
}

} // verus!
