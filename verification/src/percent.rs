//! Percent-encoded text: `%` followed by two hexadecimal digits stands for
//! the character with that code.

use vstd::prelude::*;
use crate::text::{from_chars, to_chars};

verus! {

pub open spec fn is_hex_digit(c: char) -> bool {
    ('0' <= c && c <= '9') || ('a' <= c && c <= 'f') || ('A' <= c && c <= 'F')
}

pub open spec fn hex_value(c: char) -> int {
    if '0' <= c && c <= '9' {
        c as int - 48
    } else if 'a' <= c && c <= 'f' {
        c as int - 87
    } else {
        c as int - 55
    }
}

/// Whether the text from position `i` on is well formed: every `%` that is
/// not itself part of an escape is followed by two hexadecimal digits.
pub open spec fn escapes_well_formed(text: Seq<char>, i: int) -> bool
    decreases text.len() - i,
{
    if i < 0 || i >= text.len() {
        true
    } else if text[i] == '%' {
        &&& i + 2 < text.len()
        &&& is_hex_digit(text[i + 1])
        &&& is_hex_digit(text[i + 2])
        &&& escapes_well_formed(text, i + 3)
    } else {
        escapes_well_formed(text, i + 1)
    }
}

/// Whether the text is percent-encoded: all of it is ASCII and its escapes
/// are well formed.
pub open spec fn percent_encoded(text: Seq<char>) -> bool {
    &&& forall|i: int| 0 <= i < text.len() ==> (#[trigger] text[i]) <= '\x7f'
    &&& escapes_well_formed(text, 0)
}

/// The text from position `i` on with each escape replaced by the character
/// whose code it gives; other characters stay.
pub open spec fn decoded_from(text: Seq<char>, i: int) -> Seq<char>
    decreases text.len() - i,
{
    if i < 0 || i >= text.len() {
        Seq::empty()
    } else if text[i] == '%' && i + 2 < text.len() {
        seq![((16 * hex_value(text[i + 1]) + hex_value(text[i + 2])) as u8) as char] + decoded_from(
            text,
            i + 3,
        )
    } else {
        seq![text[i]] + decoded_from(text, i + 1)
    }
}

/// What a percent-encoded text stands for.
pub open spec fn percent_decoded(text: Seq<char>) -> Seq<char> {
    decoded_from(text, 0)
}

fn is_hex_digit_char(c: char) -> (b: bool)
    ensures
        b == is_hex_digit(c),
{
    ('0' <= c && c <= '9') || ('a' <= c && c <= 'f') || ('A' <= c && c <= 'F')
}

/// Tests whether a text is percent-encoded.
pub fn is_percent_encoded(text: &[char]) -> (b: bool)
    ensures
        b == percent_encoded(text@),
{
    let n = text.len();
    let mut k: usize = 0;
    while k < n
        invariant
            k <= n,
            n == text.len(),
            forall|j: int| 0 <= j < k ==> (#[trigger] text@[j]) <= '\x7f',
        decreases n - k,
    {
        if text[k] > '\x7f' {
            return false;
        }
        k += 1;
    }
    let mut i: usize = 0;
    while i < n
        invariant
            i <= n,
            n == text.len(),
            escapes_well_formed(text@, 0) == escapes_well_formed(text@, i as int),
        decreases n - i,
    {
        if text[i] == '%' {
            if n - i <= 2 || !is_hex_digit_char(text[i + 1]) || !is_hex_digit_char(text[i + 2]) {
                return false;
            }
            i += 3;
        } else {
            i += 1;
        }
    }
    true
}

/// Decodes a percent-encoded text; `None` where the text is not
/// percent-encoded.
pub fn percent_decode(text: &str) -> (decoded: Option<String>)
    ensures
        percent_encoded(text@) ==> decoded is Some && decoded->0@ == percent_decoded(text@),
        !percent_encoded(text@) ==> decoded is None,
{
    let chars = to_chars(text);
    if !is_percent_encoded(chars.as_slice()) {
        return None;
    }
    let owned = from_chars(chars.as_slice());
    Some(urldecode::decode(owned))
}

} // verus!
