//! Reading captions out of third-party documents: the caption-track
//! manifest embedded in a video's info document, and the timed fragments of
//! a transcript.

use vstd::prelude::*;
use crate::bridge::{
    capture_group, find_match, html_decoded, optional_text, regex_group, regex_match,
    regex_replaced_all, regex_replaced_first, replace_all_matches, replace_first_match,
};
use crate::entry::{Entry, EntryView, entries_view, optional_entries, optional_entry};
use crate::percent::{percent_decode, percent_decoded, percent_encoded};
use crate::text::{
    blank, from_chars, is_blank, pieces, pieces_view, replace_all, replaced, split_on, to_chars,
};
use crate::timecode::{fitting, lemma_seconds_not_negative, parse_seconds, seconds_as_millis};

verus! {

/// Finds the caption-track manifest inside an info document.
pub const MANIFEST_PATTERN: &'static str = "captionTracks.*?isTranslatable.*?(true|false)";

/// Finds the start time of a transcript fragment.
pub const START_PATTERN: &'static str = "start=\"([\\d.]+)\"";

/// Finds the duration of a transcript fragment.
pub const DURATION_PATTERN: &'static str = "dur=\"([\\d.]+)";

/// The opening tag of a transcript fragment.
pub const OPENING_TAG_PATTERN: &'static str = "<text[^>]*>";

/// The ampersand entity, in any case.
pub const AMPERSAND_PATTERN: &'static str = "(?i)&amp;";

/// Any tag, closed or cut off by the end of the text.
pub const TAG_PATTERN: &'static str = "</?[^>]+(>|$)";

pub const TRANSCRIPT_HEADER: &'static str =
    "<?xml version=\"1.0\" encoding=\"utf-8\" ?><transcript>";

pub const TRANSCRIPT_FOOTER: &'static str = "</transcript>";

pub const FRAGMENT_END: &'static str = "</text>";

pub const ESCAPED_AMPERSAND: &'static str = "\\u0026";

pub const MANIFEST_OPENING: &'static str = "{\"";

pub const MANIFEST_CLOSING: &'static str = "}]}";

/// The JSON document that a manifest found in an info document stands for:
/// the match is percent-decoded, its escaped ampersands are written out, and
/// the braces that the match lacks are put around it. A match that is not
/// percent-encoded stands for nothing.
pub open spec fn manifest_of_match(found: Seq<char>) -> Option<Seq<char>> {
    if percent_encoded(found) {
        Some(
            MANIFEST_OPENING@ + replaced(percent_decoded(found), ESCAPED_AMPERSAND@, seq!['&'])
                + MANIFEST_CLOSING@,
        )
    } else {
        None
    }
}

/// The caption-track manifest of an info document, as a JSON document.
pub open spec fn manifest_of(video_info: Seq<char>) -> Option<Seq<char>> {
    match regex_match(MANIFEST_PATTERN@, video_info) {
        Some(found) => manifest_of_match(found),
        None => None,
    }
}

/// Turns the manifest as it was found in an info document into a JSON
/// document.
pub fn manifest_from_match(found: &str) -> (manifest: Option<String>)
    ensures
        optional_text(manifest) == manifest_of_match(found@),
{
    let decoded = match percent_decode(found) {
        Some(text) => to_chars(text.as_str()),
        None => {
            return None;
        },
    };
    let escaped = to_chars(ESCAPED_AMPERSAND);
    let mut ampersand: Vec<char> = Vec::new();
    ampersand.push('&');
    let written_out = replace_all(decoded.as_slice(), escaped.as_slice(), ampersand.as_slice());
    let mut document = to_chars(MANIFEST_OPENING);
    document.extend_from_slice(written_out.as_slice());
    let closing = to_chars(MANIFEST_CLOSING);
    document.extend_from_slice(closing.as_slice());
    assert(ampersand@ =~= seq!['&']);
    Some(from_chars(document.as_slice()))
}

/// Extracts the caption-track manifest from an info document.
///
/// Returns `None` where the document holds no manifest or the manifest is
/// not percent-encoded.
pub fn caption_manifest(video_info: &str) -> (manifest: Option<String>)
    ensures
        optional_text(manifest) == manifest_of(video_info@),
{
    match find_match(MANIFEST_PATTERN, video_info) {
        Some(found) => manifest_from_match(found.as_str()),
        None => None,
    }
}

/// One caption track that a manifest offers.
#[derive(Debug, PartialEq, Eq)]
pub struct CaptionTrack {
    pub base_url: String,
    pub language_code: String,
}

pub struct CaptionTrackView {
    pub base_url: Seq<char>,
    pub language_code: Seq<char>,
}

impl View for CaptionTrack {
    type V = CaptionTrackView;

    open spec fn view(&self) -> CaptionTrackView {
        CaptionTrackView { base_url: self.base_url@, language_code: self.language_code@ }
    }
}

/// The values of a list of caption tracks.
pub open spec fn tracks_view(tracks: Seq<CaptionTrack>) -> Seq<CaptionTrackView> {
    tracks.map_values(|t: CaptionTrack| t@)
}

/// Whether `at` is the position of the first track in the given language.
pub open spec fn first_in_language(
    tracks: Seq<CaptionTrackView>,
    language: Seq<char>,
    at: int,
) -> bool {
    &&& 0 <= at < tracks.len()
    &&& tracks[at].language_code == language
    &&& forall|j: int| 0 <= j < at ==> (#[trigger] tracks[j]).language_code != language
}

/// The first track in the given language, if there is one.
pub open spec fn track_in_language(tracks: Seq<CaptionTrackView>, language: Seq<char>) -> Option<
    CaptionTrackView,
> {
    if exists|at: int| first_in_language(tracks, language, at) {
        Some(tracks[choose|at: int| first_in_language(tracks, language, at)])
    } else {
        None
    }
}

/// The value of an optional borrowed track.
pub open spec fn optional_track(track: Option<&CaptionTrack>) -> Option<CaptionTrackView> {
    match track {
        Some(t) => Some(t@),
        None => None,
    }
}

/// Selects the first track whose language code is the requested one.
pub fn select_track<'a>(tracks: &'a [CaptionTrack], language: &str) -> (selected: Option<
    &'a CaptionTrack,
>)
    ensures
        optional_track(selected) == track_in_language(tracks_view(tracks@), language@),
{
    let ghost views = tracks_view(tracks@);
    let wanted = language.to_owned();
    let mut i: usize = 0;
    while i < tracks.len()
        invariant
            i <= tracks.len(),
            wanted@ == language@,
            views == tracks_view(tracks@),
            forall|j: int| 0 <= j < i ==> (#[trigger] views[j]).language_code != language@,
        decreases tracks.len() - i,
    {
        if tracks[i].language_code == wanted {
            proof {
                assert(views[i as int] == tracks@[i as int]@);
                assert(first_in_language(views, language@, i as int));
                let at = choose|at: int| first_in_language(views, language@, at);
                assert(at == i) by {
                    if at < i {
                        assert(views[at].language_code != language@);
                    }
                    if i < at {
                        assert(views[i as int].language_code == language@);
                    }
                }
            }
            return Some(&tracks[i]);
        }
        i += 1;
    }
    proof {
        if exists|at: int| first_in_language(views, language@, at) {
            let at = choose|at: int| first_in_language(views, language@, at);
            assert(views[at].language_code != language@);
        }
    }
    None
}

/// The entry that a start time, a duration and a text make: it starts at
/// the start time and ends one duration later. Nothing where a time is
/// malformed or does not fit.
pub open spec fn timed_entry(start: Seq<char>, duration: Seq<char>, text: Seq<char>) -> Option<
    EntryView,
> {
    match (fitting(seconds_as_millis(start)), fitting(seconds_as_millis(duration))) {
        (Some(s), Some(d)) => if s + d <= i64::MAX {
            Some(EntryView { start_millis: s as int, end_millis: s + d, text })
        } else {
            None
        },
        _ => None,
    }
}

/// Builds the entry of a fragment from its start time and duration, both
/// written as decimal seconds, and its text.
pub fn build_entry(start: &str, duration: &str, text: String) -> (entry: Option<Entry>)
    ensures
        optional_entry(entry) == timed_entry(start@, duration@, text@),
{
    let start_chars = to_chars(start);
    let duration_chars = to_chars(duration);
    match (parse_seconds(start_chars.as_slice()), parse_seconds(duration_chars.as_slice())) {
        (Some(s), Some(d)) => {
            proof {
                lemma_seconds_not_negative(start@);
                lemma_seconds_not_negative(duration@);
            }
            if s > i64::MAX - d {
                None
            } else {
                Some(Entry { start_millis: s, end_millis: s + d, text })
            }
        },
        _ => None,
    }
}

/// The text that a fragment shows: the fragment without its opening tag,
/// with the ampersand entity written out, without any further tag, and with
/// its HTML entities decoded. Nothing where an entity cannot be decoded.
pub open spec fn caption_text(fragment: Seq<char>) -> Option<Seq<char>> {
    match regex_replaced_first(OPENING_TAG_PATTERN@, fragment, Seq::empty()) {
        Some(payload) => caption_text_of_payload(payload),
        None => None,
    }
}

/// The text that the payload of a fragment shows.
pub open spec fn caption_text_of_payload(payload: Seq<char>) -> Option<Seq<char>> {
    match regex_replaced_all(AMPERSAND_PATTERN@, payload, seq!['&']) {
        Some(written_out) => match regex_replaced_all(TAG_PATTERN@, written_out, Seq::empty()) {
            Some(bare) => html_decoded(bare),
            None => None,
        },
        None => None,
    }
}

/// The entry that one transcript fragment stands for; nothing where the
/// fragment lacks a start time or a duration, or either is malformed, or its
/// text cannot be decoded.
pub open spec fn entry_of_fragment(fragment: Seq<char>) -> Option<EntryView> {
    match (
        regex_group(START_PATTERN@, fragment, 1),
        regex_group(DURATION_PATTERN@, fragment, 1),
        caption_text(fragment),
    ) {
        (Some(start), Some(duration), Some(text)) => timed_entry(start, duration, text),
        _ => None,
    }
}

/// Reads the text that a transcript fragment shows.
pub fn read_caption_text(fragment: &str) -> (text: Option<String>)
    ensures
        optional_text(text) == caption_text(fragment@),
{
    proof {
        reveal_strlit("");
        reveal_strlit("&");
        assert(""@ =~= Seq::<char>::empty());
        assert("&"@ =~= seq!['&']);
    }
    let payload = match replace_first_match(OPENING_TAG_PATTERN, fragment, "") {
        Some(p) => p,
        None => {
            return None;
        },
    };
    let written_out = match replace_all_matches(AMPERSAND_PATTERN, payload.as_str(), "&") {
        Some(w) => w,
        None => {
            return None;
        },
    };
    let bare = match replace_all_matches(TAG_PATTERN, written_out.as_str(), "") {
        Some(b) => b,
        None => {
            return None;
        },
    };
    match htmlescape::decode_html(bare.as_str()) {
        Ok(text) => Some(text),
        Err(_) => None,
    }
}

/// Reads one transcript fragment into an entry.
pub fn parse_fragment(fragment: &str) -> (entry: Option<Entry>)
    ensures
        optional_entry(entry) == entry_of_fragment(fragment@),
{
    let start = match capture_group(START_PATTERN, fragment, 1) {
        Some(s) => s,
        None => {
            return None;
        },
    };
    let duration = match capture_group(DURATION_PATTERN, fragment, 1) {
        Some(d) => d,
        None => {
            return None;
        },
    };
    match read_caption_text(fragment) {
        Some(text) => build_entry(start.as_str(), duration.as_str(), text),
        None => None,
    }
}

/// The fragments of a transcript: what lies between the fragment end tags
/// once the wrapper around the transcript is taken off, blank pieces left
/// out.
pub open spec fn fragments_of(transcript: Seq<char>) -> Seq<Seq<char>> {
    pieces(
        replaced(
            replaced(transcript, TRANSCRIPT_HEADER@, Seq::empty()),
            TRANSCRIPT_FOOTER@,
            Seq::empty(),
        ),
        FRAGMENT_END@,
    ).filter(|piece: Seq<char>| !blank(piece))
}

/// The entries of a list of fragments, one for each; nothing where any one
/// of the fragments stands for no entry.
pub open spec fn entries_of_fragments(fragments: Seq<Seq<char>>) -> Option<Seq<EntryView>> {
    if forall|i: int|
        0 <= i < fragments.len() ==> entry_of_fragment(#[trigger] fragments[i]) is Some {
        Some(fragments.map_values(|f: Seq<char>| entry_of_fragment(f)->0))
    } else {
        None
    }
}

/// Entries merged two by two, by position: each pair becomes one entry with
/// the times of its first entry and both texts, joined by a space; an
/// entry left without a partner at the end stays as it is.
pub open spec fn merged(entries: Seq<EntryView>) -> Seq<EntryView> {
    Seq::new(
        ((entries.len() + 1) / 2) as nat,
        |k: int|
            if 2 * k + 1 < entries.len() {
                EntryView {
                    start_millis: entries[2 * k].start_millis,
                    end_millis: entries[2 * k].end_millis,
                    text: entries[2 * k].text + seq![' '] + entries[2 * k + 1].text,
                }
            } else {
                entries[2 * k]
            },
    )
}

/// Merges entries two by two, by position.
pub fn merge_pairs(entries: Vec<Entry>) -> (out: Vec<Entry>)
    ensures
        entries_view(out@) == merged(entries_view(entries@)),
{
    let ghost source = entries_view(entries@);
    let n = entries.len();
    let mut out: Vec<Entry> = Vec::new();
    let mut i: usize = 0;
    while i < n
        invariant
            n == entries.len(),
            source == entries_view(entries@),
            i <= n,
            i % 2 == 0 || i == n,
            out.len() == (i + 1) / 2,
            forall|k: int| 0 <= k < out.len() ==> (#[trigger] out@[k])@ == merged(source)[k],
        decreases n - i,
    {
        let first = &entries[i];
        if n - i >= 2 {
            let second = &entries[i + 1];
            let mut text = first.text.clone();
            text.push(' ');
            let mut k: usize = 0;
            let second_chars = to_chars(second.text.as_str());
            while k < second_chars.len()
                invariant
                    k <= second_chars.len(),
                    text@ == first.text@ + seq![' '] + second_chars@.take(k as int),
                decreases second_chars.len() - k,
            {
                text.push(second_chars[k]);
                assert(second_chars@.take(k + 1) =~= second_chars@.take(k as int).push(
                    second_chars@[k as int],
                ));
                assert(first.text@ + seq![' '] + second_chars@.take(k + 1) =~= (first.text@
                    + seq![' '] + second_chars@.take(k as int)).push(second_chars@[k as int]));
                k += 1;
            }
            assert(second_chars@.take(second_chars.len() as int) =~= second_chars@);
            out.push(
                Entry { start_millis: first.start_millis, end_millis: first.end_millis, text },
            );
            i += 2;
        } else {
            out.push(first.clone());
            i += 1;
        }
    }
    assert(entries_view(out@) =~= merged(source));
    out
}

/// The captions of a transcript: the entries of its fragments, merged two
/// by two. Nothing where any fragment stands for no entry.
pub open spec fn captions_of(transcript: Seq<char>) -> Option<Seq<EntryView>> {
    match entries_of_fragments(fragments_of(transcript)) {
        Some(entries) => Some(merged(entries)),
        None => None,
    }
}

/// Splits a transcript into the pieces between its fragment end tags, the
/// wrapper around the transcript taken off.
pub fn transcript_pieces(transcript: &str) -> (out: Vec<Vec<char>>)
    ensures
        pieces_view(out@) == pieces(
            replaced(
                replaced(transcript@, TRANSCRIPT_HEADER@, Seq::empty()),
                TRANSCRIPT_FOOTER@,
                Seq::empty(),
            ),
            FRAGMENT_END@,
        ),
{
    let chars = to_chars(transcript);
    let header = to_chars(TRANSCRIPT_HEADER);
    let footer = to_chars(TRANSCRIPT_FOOTER);
    let end = to_chars(FRAGMENT_END);
    let nothing: Vec<char> = Vec::new();
    let without_header = replace_all(chars.as_slice(), header.as_slice(), nothing.as_slice());
    let body = replace_all(without_header.as_slice(), footer.as_slice(), nothing.as_slice());
    assert(nothing@ =~= Seq::<char>::empty());
    split_on(body.as_slice(), end.as_slice())
}

/// Reads a transcript into captions.
///
/// Returns `None` where any fragment of the transcript cannot be read: no
/// fragment is skipped.
pub fn parse_transcript(transcript: &str) -> (captions: Option<Vec<Entry>>)
    ensures
        optional_entries(captions) == captions_of(transcript@),
{
    let all = transcript_pieces(transcript);
    let ghost all_v = pieces_view(all@);
    let ghost wanted = |piece: Seq<char>| !blank(piece);
    let ghost read = |f: Seq<char>| entry_of_fragment(f)->0;
    let mut entries: Vec<Entry> = Vec::new();
    let mut i: usize = 0;
    proof {
        reveal(Seq::filter);
        assert(all_v.take(0).filter(wanted) =~= Seq::<Seq<char>>::empty());
        assert(entries_view(entries@) =~= all_v.take(0).filter(wanted).map_values(read));
    }
    while i < all.len()
        invariant
            i <= all.len(),
            all_v == pieces_view(all@),
            all_v.filter(wanted) == fragments_of(transcript@),
            wanted == (|piece: Seq<char>| !blank(piece)),
            read == (|f: Seq<char>| entry_of_fragment(f)->0),
            forall|j: int|
                0 <= j < all_v.take(i as int).filter(wanted).len() ==> entry_of_fragment(
                    #[trigger] all_v.take(i as int).filter(wanted)[j],
                ) is Some,
            entries_view(entries@) == all_v.take(i as int).filter(wanted).map_values(read),
        decreases all.len() - i,
    {
        let ghost before = all_v.take(i as int).filter(wanted);
        let ghost after = all_v.take(i + 1).filter(wanted);
        proof {
            reveal(Seq::filter);
            assert(all_v.take(i + 1).drop_last() =~= all_v.take(i as int));
            assert(all_v.take(i + 1).last() == all_v[i as int]);
            assert(all_v[i as int] == all@[i as int]@);
        }
        if !is_blank(all[i].as_slice()) {
            let fragment = from_chars(all[i].as_slice());
            match parse_fragment(fragment.as_str()) {
                Some(entry) => {
                    let ghost old_entries = entries@;
                    entries.push(entry);
                    assert(after == before.push(all_v[i as int]));
                    assert(fragment@ == all_v[i as int]);
                    assert(entry@ == read(all_v[i as int]));
                    assert(entries_view(entries@) =~= entries_view(old_entries).push(entry@));
                    assert(after.map_values(read) =~= before.map_values(read).push(
                        read(all_v[i as int]),
                    ));
                },
                None => {
                    proof {
                        let fragments = all_v.filter(wanted);
                        all_v.lemma_filter_contains(wanted, i as int);
                        let j = choose|j: int|
                            0 <= j < fragments.len() && fragments[j] == all_v[i as int];
                        assert(entry_of_fragment(fragments[j]) is None);
                    }
                    return None;
                },
            }
        } else {
            assert(after == before);
        }
        i += 1;
    }
    assert(all_v.take(all.len() as int) =~= all_v);
    Some(merge_pairs(entries))
}

} // verus!
