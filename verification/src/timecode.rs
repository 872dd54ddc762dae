//! Times written as decimal seconds, read into whole milliseconds.

use vstd::prelude::*;

verus! {

/// The largest count of whole seconds whose milliseconds may still fit.
pub const MAX_WHOLE_SECONDS: i64 = 9223372036854775;

pub open spec fn is_digit(c: char) -> bool {
    '0' <= c && c <= '9'
}

pub open spec fn digit_value(c: char) -> int {
    c as int - 48
}

/// The number that a run of decimal digits writes; the empty run writes 0.
pub open spec fn decimal_value(digits: Seq<char>) -> int
    decreases digits.len(),
{
    if digits.len() == 0 {
        0
    } else {
        decimal_value(digits.drop_last()) * 10 + digit_value(digits.last())
    }
}

/// The first position at or after `from` that holds no digit, or the length
/// of the text where digits run to its end.
pub open spec fn digits_end(text: Seq<char>, from: int) -> int
    decreases text.len() - from,
{
    if 0 <= from < text.len() && is_digit(text[from]) {
        digits_end(text, from + 1)
    } else {
        from
    }
}

/// The milliseconds that the digits after the decimal point stand for:
/// the first three count, later ones are cut off.
pub open spec fn millis_of_fraction(fraction: Seq<char>) -> int {
    decimal_value((fraction + seq!['0', '0', '0']).take(3))
}

/// The whole milliseconds in a time written as decimal seconds.
///
/// The text is a run of digits, optionally followed by a point and another
/// run of digits; either run may be empty, not both. Anything else is no
/// time.
pub open spec fn seconds_as_millis(text: Seq<char>) -> Option<int> {
    let w = digits_end(text, 0);
    let whole = text.subrange(0, w);
    if w == text.len() {
        if w == 0 {
            None
        } else {
            Some(decimal_value(whole) * 1000)
        }
    } else if text[w] != '.' {
        None
    } else {
        let f = digits_end(text, w + 1);
        let fraction = text.subrange(w + 1, f);
        if f != text.len() || w + fraction.len() == 0 {
            None
        } else {
            Some(decimal_value(whole) * 1000 + millis_of_fraction(fraction))
        }
    }
}

/// A count of milliseconds as a machine integer, where it fits.
pub open spec fn fitting(millis: Option<int>) -> Option<i64> {
    match millis {
        Some(m) => if i64::MIN <= m <= i64::MAX {
            Some(m as i64)
        } else {
            None
        },
        None => None,
    }
}

proof fn lemma_digits_end(text: Seq<char>, from: int)
    requires
        0 <= from <= text.len(),
    ensures
        from <= digits_end(text, from) <= text.len(),
        forall|i: int| from <= i < digits_end(text, from) ==> is_digit(#[trigger] text[i]),
        digits_end(text, from) == text.len() || !is_digit(text[digits_end(text, from)]),
    decreases text.len() - from,
{
    if from < text.len() && is_digit(text[from]) {
        lemma_digits_end(text, from + 1);
    }
}

proof fn lemma_decimal_value_grows(digits: Seq<char>, k: int)
    requires
        0 <= k <= digits.len(),
        forall|i: int| 0 <= i < digits.len() ==> is_digit(#[trigger] digits[i]),
    ensures
        0 <= decimal_value(digits.take(k)) <= decimal_value(digits),
    decreases digits.len(),
{
    if digits.len() == 0 {
        assert(digits.take(k) =~= digits);
    } else if k == digits.len() {
        assert(digits.take(k) =~= digits);
        lemma_decimal_value_grows(digits.drop_last(), k - 1);
        assert(is_digit(digits.last()));
    } else {
        lemma_decimal_value_grows(digits.drop_last(), k);
        assert(digits.drop_last().take(k) =~= digits.take(k));
        assert(is_digit(digits.last()));
    }
}

/// No text reads as a negative time.
pub proof fn lemma_seconds_not_negative(text: Seq<char>)
    ensures
        seconds_as_millis(text) is Some ==> seconds_as_millis(text)->0 >= 0,
{
    if seconds_as_millis(text) is Some {
        lemma_digits_end(text, 0);
        let w = digits_end(text, 0);
        let whole = text.subrange(0, w);
        assert(whole.take(0) =~= Seq::<char>::empty());
        lemma_decimal_value_grows(whole, 0);
        if w < text.len() {
            lemma_digits_end(text, w + 1);
            let fraction = text.subrange(w + 1, digits_end(text, w + 1));
            let padded = (fraction + seq!['0', '0', '0']).take(3);
            assert(forall|j: int| 0 <= j < padded.len() ==> is_digit(#[trigger] padded[j]));
            lemma_decimal_value_grows(padded, 0);
        }
    }
}

proof fn lemma_three_digits(a: char, b: char, c: char)
    ensures
        decimal_value(seq![a, b, c]) == digit_value(a) * 100 + digit_value(b) * 10 + digit_value(c),
{
    let s3 = seq![a, b, c];
    let s2 = seq![a, b];
    let s1 = seq![a];
    assert(s3.drop_last() =~= s2);
    assert(s2.drop_last() =~= s1);
    assert(s1.drop_last() =~= Seq::<char>::empty());
    assert(decimal_value(s1) == digit_value(a)) by {
        assert(decimal_value(s1.drop_last()) == 0);
    }
    assert(decimal_value(s2) == decimal_value(s1) * 10 + digit_value(b));
    assert(decimal_value(s3) == decimal_value(s2) * 10 + digit_value(c));
}

fn is_digit_char(c: char) -> (b: bool)
    ensures
        b == is_digit(c),
{
    '0' <= c && c <= '9'
}

fn digit_of(c: char) -> (d: i64)
    requires
        is_digit(c),
    ensures
        d == digit_value(c),
        0 <= d <= 9,
{
    (c as u32 - 48) as i64
}

/// Reads a time written as decimal seconds into whole milliseconds.
///
/// Returns `None` where the text is no such time or the milliseconds do not
/// fit.
pub fn parse_seconds(text: &[char]) -> (millis: Option<i64>)
    ensures
        millis == fitting(seconds_as_millis(text@)),
{
    let n = text.len();
    proof {
        lemma_digits_end(text@, 0);
    }
    let ghost w = digits_end(text@, 0);
    let ghost whole_digits = text@.subrange(0, w);
    let mut i: usize = 0;
    let mut whole: i64 = 0;
    assert(text@.subrange(0, 0) =~= Seq::<char>::empty());
    while i < n && is_digit_char(text[i])
        invariant
            n == text.len(),
            i <= n,
            i <= w <= n,
            w == digits_end(text@, 0),
            w == digits_end(text@, i as int),
            whole_digits == text@.subrange(0, w),
            forall|j: int| 0 <= j < w ==> is_digit(#[trigger] text@[j]),
            whole == decimal_value(text@.subrange(0, i as int)),
            0 <= whole <= MAX_WHOLE_SECONDS,
        decreases n - i,
    {
        let d = digit_of(text[i]);
        let next: i64 = whole * 10 + d;
        proof {
            lemma_digits_end(text@, i + 1);
            let prefix = text@.subrange(0, i + 1);
            assert(prefix.drop_last() =~= text@.subrange(0, i as int));
            assert(prefix.last() == text@[i as int]);
            assert(decimal_value(prefix) == next);
            assert(prefix =~= whole_digits.take(i + 1));
            lemma_decimal_value_grows(whole_digits, i + 1);
        }
        if next > MAX_WHOLE_SECONDS {
            proof {
                let spec_result = seconds_as_millis(text@);
                if spec_result is Some {
                    if w < n {
                        let f = digits_end(text@, w + 1);
                        lemma_digits_end(text@, w + 1);
                        let fraction = text@.subrange(w + 1, f);
                        let padded = (fraction + seq!['0', '0', '0']).take(3);
                        assert(forall|j: int| 0 <= j < padded.len() ==> is_digit(#[trigger] padded[j]));
                        lemma_decimal_value_grows(padded, 0);
                    }
                    assert(spec_result->0 > i64::MAX);
                }
            }
            return None;
        }
        whole = next;
        i += 1;
    }
    assert(i == w);
    if i == n {
        if i == 0 {
            return None;
        }
        return Some(whole * 1000);
    }
    if text[i] != '.' {
        return None;
    }
    let point = i;
    i += 1;
    proof {
        lemma_digits_end(text@, w + 1);
    }
    let ghost f = digits_end(text@, w + 1);
    let ghost fraction = text@.subrange(w + 1, f);
    let mut d1: i64 = 0;
    let mut d2: i64 = 0;
    let mut d3: i64 = 0;
    while i < n && is_digit_char(text[i])
        invariant
            n == text.len(),
            point == w,
            point < i <= f <= n,
            f == digits_end(text@, w + 1),
            f == digits_end(text@, i as int),
            0 <= d1 <= 9,
            0 <= d2 <= 9,
            0 <= d3 <= 9,
            i > point + 1 ==> d1 == digit_value(text@[point + 1]),
            i > point + 2 ==> d2 == digit_value(text@[point + 2]),
            i > point + 3 ==> d3 == digit_value(text@[point + 3]),
            i <= point + 1 ==> d1 == 0,
            i <= point + 2 ==> d2 == 0,
            i <= point + 3 ==> d3 == 0,
        decreases n - i,
    {
        let d = digit_of(text[i]);
        proof {
            lemma_digits_end(text@, i + 1);
        }
        if i == point + 1 {
            d1 = d;
        } else if i == point + 2 {
            d2 = d;
        } else if i == point + 3 {
            d3 = d;
        }
        i += 1;
    }
    assert(i == f);
    if i != n || (point == 0 && i == 1) {
        return None;
    }
    let millis: i64 = d1 * 100 + d2 * 10 + d3;
    proof {
        let padded = (fraction + seq!['0', '0', '0']).take(3);
        let c1 = if fraction.len() > 0 { fraction[0] } else { '0' };
        let c2 = if fraction.len() > 1 { fraction[1] } else { '0' };
        let c3 = if fraction.len() > 2 { fraction[2] } else { '0' };
        assert(padded =~= seq![c1, c2, c3]);
        lemma_three_digits(c1, c2, c3);
        assert(millis_of_fraction(fraction) == millis);
    }
    if whole == MAX_WHOLE_SECONDS && millis > 807 {
        return None;
    }
    Some(whole * 1000 + millis)
}

} // verus!
