//! Calls into std and into other crates whose behaviour is taken on trust.
//!
//! Nothing in this module is proved: each item states what the function it
//! names is documented to do, and the rest of the library is verified
//! against these statements.

use vstd::prelude::*;
use crate::percent::{percent_decoded, percent_encoded};

verus! {

/// Whether `char::is_whitespace` holds of a character, that is, whether it
/// has the Unicode property `White_Space`.
pub uninterp spec fn whitespace(c: char) -> bool;

/// `char::is_whitespace`: the result is the property named [`whitespace`].
pub assume_specification[ char::is_whitespace ](c: char) -> (b: bool)
    ensures
        b == whitespace(c),
;

/// `String::push`: appends one character to the end of the string.
pub assume_specification[ String::push ](s: &mut String, ch: char)
    ensures
        final(s)@ == old(s)@.push(ch),
;

/// `urldecode::decode`: walks the text once and replaces each `%` and the two
/// characters behind it by the character whose code they spell in
/// hexadecimal. It indexes by byte count, so it is called on ASCII text only,
/// and it stops the program on a `%` that is not followed by two hexadecimal
/// digits, so it is called on well-formed text only.
pub assume_specification[ urldecode::decode ](url: String) -> (decoded: String)
    requires
        percent_encoded(url@),
    ensures
        decoded@ == percent_decoded(url@),
;

/// The error of `htmlescape::decode_html`.
#[verifier::external_type_specification]
#[verifier::external_body]
pub struct ExDecodeErr(htmlescape::DecodeErr);

/// What `htmlescape::decode_html` makes of a text: the text with each HTML
/// entity replaced by its character, or nothing where an entity is unknown,
/// malformed or unterminated.
pub uninterp spec fn html_decoded(text: Seq<char>) -> Option<Seq<char>>;

/// `htmlescape::decode_html`: the result is the one named [`html_decoded`].
pub assume_specification[ htmlescape::decode_html ](s: &str) -> (decoded: Result<
    String,
    htmlescape::DecodeErr,
>)
    ensures
        match decoded {
            Ok(text) => html_decoded(s@) == Some(text@),
            Err(_) => html_decoded(s@) is None,
        },
;

/// The value of an optional text.
pub open spec fn optional_text(text: Option<String>) -> Option<Seq<char>> {
    match text {
        Some(t) => Some(t@),
        None => None,
    }
}

/// The text of the leftmost match of a regular expression in a text, as
/// `regex::Regex::find` reports it; nothing where the expression matches
/// nowhere or `regex::Regex::new` does not accept it.
pub uninterp spec fn regex_match(pattern: Seq<char>, text: Seq<char>) -> Option<Seq<char>>;

/// `regex::Regex::find` on the expression that `regex::Regex::new` compiles
/// from `pattern`: the result is the one named [`regex_match`].
#[verifier::external_body]
pub(crate) fn find_match(pattern: &str, text: &str) -> (found: Option<String>)
    ensures
        optional_text(found) == regex_match(pattern@, text@),
{
    let re = regex::Regex::new(pattern).ok()?;
    re.find(text).map(|m| m.as_str().to_string())
}

/// The text of capture group `group` in the leftmost match of a regular
/// expression, as `regex::Regex::captures` reports it; nothing where the
/// expression matches nowhere, the group took no part in the match or does
/// not exist, or `regex::Regex::new` does not accept the expression.
pub uninterp spec fn regex_group(pattern: Seq<char>, text: Seq<char>, group: int) -> Option<
    Seq<char>,
>;

/// `regex::Regex::captures` on the expression that `regex::Regex::new`
/// compiles from `pattern`: the result is the one named [`regex_group`].
#[verifier::external_body]
pub(crate) fn capture_group(pattern: &str, text: &str, group: usize) -> (found: Option<String>)
    ensures
        optional_text(found) == regex_group(pattern@, text@, group as int),
{
    let re = regex::Regex::new(pattern).ok()?;
    re.captures(text)?.get(group).map(|m| m.as_str().to_string())
}

/// The text with the leftmost match of a regular expression replaced, as
/// `regex::Regex::replace` gives it; nothing where `regex::Regex::new` does
/// not accept the expression.
pub uninterp spec fn regex_replaced_first(
    pattern: Seq<char>,
    text: Seq<char>,
    replacement: Seq<char>,
) -> Option<Seq<char>>;

/// `regex::Regex::replace` on the expression that `regex::Regex::new`
/// compiles from `pattern`: the result is the one named
/// [`regex_replaced_first`].
#[verifier::external_body]
pub(crate) fn replace_first_match(pattern: &str, text: &str, replacement: &str) -> (replaced:
    Option<String>)
    ensures
        optional_text(replaced) == regex_replaced_first(pattern@, text@, replacement@),
{
    let re = regex::Regex::new(pattern).ok()?;
    Some(re.replace(text, replacement).into_owned())
}

/// The text with every match of a regular expression replaced, as
/// `regex::Regex::replace_all` gives it; nothing where `regex::Regex::new`
/// does not accept the expression.
pub uninterp spec fn regex_replaced_all(
    pattern: Seq<char>,
    text: Seq<char>,
    replacement: Seq<char>,
) -> Option<Seq<char>>;

/// `regex::Regex::replace_all` on the expression that `regex::Regex::new`
/// compiles from `pattern`: the result is the one named
/// [`regex_replaced_all`].
#[verifier::external_body]
pub(crate) fn replace_all_matches(pattern: &str, text: &str, replacement: &str) -> (replaced:
    Option<String>)
    ensures
        optional_text(replaced) == regex_replaced_all(pattern@, text@, replacement@),
{
    let re = regex::Regex::new(pattern).ok()?;
    Some(re.replace_all(text, replacement).into_owned())
}

/// The error of `subparse`.
#[verifier::external_type_specification]
#[verifier::external_body]
pub struct ExSubparseError(subparse::errors::Error);

/// The value of a list of captions, each a start and an end in milliseconds
/// and a text.
pub open spec fn captions_view(captions: Seq<(i64, i64, String)>) -> Seq<(int, int, Seq<char>)> {
    captions.map_values(|c: (i64, i64, String)| (c.0 as int, c.1 as int, c.2@))
}

/// The bytes of the SubRip file that `subparse::SrtFile::create` and its
/// `to_data` make of a list of captions.
pub uninterp spec fn srt_data(captions: Seq<(int, int, Seq<char>)>) -> Seq<u8>;

/// `subparse::SrtFile::create` on the captions, each with the time span that
/// `TimeSpan::new` and `TimePoint::from_msecs` make of its two times, and
/// then `to_data` on the file. Both return `Ok` on every input: `create`
/// numbers the captions and `to_data` writes them out, and neither has a
/// path that ends in an error. The bytes are those named [`srt_data`].
#[verifier::external_body]
pub(crate) fn srt_file_data(captions: &Vec<(i64, i64, String)>) -> (data: Result<
    Vec<u8>,
    subparse::errors::Error,
>)
    ensures
        match data {
            Ok(bytes) => bytes@ == srt_data(captions_view(captions@)),
            Err(_) => false,
        },
{
    let lines = captions.iter().map(
        |c| (
            subparse::timetypes::TimeSpan::new(
                subparse::timetypes::TimePoint::from_msecs(c.0),
                subparse::timetypes::TimePoint::from_msecs(c.1),
            ),
            c.2.clone(),
        ),
    ).collect();
    let file = subparse::SrtFile::create(lines)?;
    subparse::SubtitleFileInterface::to_data(&file)
}

} // verus!
