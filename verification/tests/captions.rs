use subtitle_sync::captions::{
    build_entry, caption_manifest, manifest_from_match, merge_pairs, parse_fragment,
    parse_transcript, read_caption_text, select_track, transcript_pieces, CaptionTrack,
};
use subtitle_sync::entry::Entry;
use subtitle_sync::percent::{is_percent_encoded, percent_decode};
use subtitle_sync::text::{from_chars, is_blank, matches_at, replace_all, split_on, to_chars};
use subtitle_sync::timecode::parse_seconds;

fn chars(s: &str) -> Vec<char> {
    s.chars().collect()
}

fn seconds(s: &str) -> Option<i64> {
    parse_seconds(&chars(s))
}

fn entry(start: i64, end: i64, text: &str) -> Entry {
    Entry::new(start, end, text.to_string())
}

#[test]
fn merge_joins_entries_two_by_two() {
    let entries = vec![entry(0, 1000, "Hello"), entry(1000, 2000, "world"), entry(2000, 3000, "bye")];
    assert_eq!(
        merge_pairs(entries),
        vec![entry(0, 1000, "Hello world"), entry(2000, 3000, "bye")]
    );
}

#[test]
fn merge_of_an_even_number_leaves_no_single() {
    let entries =
        vec![entry(0, 1, "a"), entry(1, 2, "b"), entry(2, 3, "c"), entry(3, 4, "d")];
    assert_eq!(merge_pairs(entries), vec![entry(0, 1, "a b"), entry(2, 3, "c d")]);
    assert_eq!(merge_pairs(vec![]), vec![]);
    assert_eq!(merge_pairs(vec![entry(5, 6, "only")]), vec![entry(5, 6, "only")]);
}

#[test]
fn transcript_is_read_and_merged() {
    let transcript = "<?xml version=\"1.0\" encoding=\"utf-8\" ?><transcript>\
        <text start=\"0\" dur=\"1\">Hello</text>\
        <text start=\"1\" dur=\"1\">world</text>\
        <text start=\"2\" dur=\"1\">bye</text></transcript>";
    assert_eq!(
        parse_transcript(transcript),
        Some(vec![entry(0, 1000, "Hello world"), entry(2000, 3000, "bye")])
    );
}

#[test]
fn transcript_without_fragments_has_no_captions() {
    let transcript = "<?xml version=\"1.0\" encoding=\"utf-8\" ?><transcript></transcript>";
    assert_eq!(parse_transcript(transcript), Some(vec![]));
    assert_eq!(parse_transcript(""), Some(vec![]));
    assert_eq!(parse_transcript(" \n\t"), Some(vec![]));
}

#[test]
fn transcript_with_a_malformed_time_is_refused_whole() {
    let transcript = "<transcript><text start=\"0\" dur=\"1\">fine</text>\
        <text start=\"1.2.3\" dur=\"1\">broken</text></transcript>";
    assert_eq!(parse_transcript(transcript), None);
}

#[test]
fn transcript_with_a_fragment_without_duration_is_refused_whole() {
    let transcript = "<text start=\"0\" dur=\"1\">fine</text><text start=\"1\">no duration</text>";
    assert_eq!(parse_transcript(transcript), None);
    assert_eq!(parse_transcript("<text dur=\"1\">no start</text>"), None);
    assert_eq!(parse_transcript("stray words"), None);
}

#[test]
fn transcript_with_an_unknown_entity_is_refused_whole() {
    let transcript = "<text start=\"0\" dur=\"1\">a &nosuchentity; b</text>";
    assert_eq!(parse_transcript(transcript), None);
}

#[test]
fn fragment_times_are_read_as_milliseconds() {
    assert_eq!(
        parse_fragment("<text start=\"12.34\" dur=\"5.678\">words"),
        Some(entry(12340, 18018, "words"))
    );
}

#[test]
fn fragment_text_loses_tags_and_entities() {
    assert_eq!(
        read_caption_text("<text start=\"3.2\" dur=\"1.05\">It&amp;#39;s &AMP;quot;fine&amp;quot; now"),
        Some("It's \"fine\" now".to_string())
    );
    assert_eq!(
        read_caption_text("<text start=\"0\" dur=\"1\">a <i>b</i> c"),
        Some("a b c".to_string())
    );
    assert_eq!(
        read_caption_text("<text start=\"0\" dur=\"1\"><b>Hi</b> there"),
        Some("Hi there".to_string())
    );
    assert_eq!(read_caption_text("<text>bare"), Some("bare".to_string()));
    assert_eq!(read_caption_text("no tag at all"), Some("no tag at all".to_string()));
    assert_eq!(
        read_caption_text("<text start=\"0\" dur=\"1\">cut <b"),
        Some("cut ".to_string())
    );
    assert_eq!(read_caption_text("<text start=\"0\" dur=\"1\">a &amp; b"), None);
    assert_eq!(
        read_caption_text("<text start=\"0\" dur=\"1\">a &amp;amp; b"),
        Some("a & b".to_string())
    );
}

#[test]
fn entry_ends_one_duration_after_its_start() {
    assert_eq!(build_entry("1.5", "2.25", "t".to_string()), Some(entry(1500, 3750, "t")));
    assert_eq!(build_entry("0", "0", String::new()), Some(entry(0, 0, "")));
    assert_eq!(build_entry("x", "1", "t".to_string()), None);
    assert_eq!(build_entry("1", "", "t".to_string()), None);
    assert_eq!(build_entry("9223372036854775", "1", "t".to_string()), None);
    assert_eq!(
        build_entry("9223372036854774", "1.807", "t".to_string()),
        Some(entry(9223372036854774000, i64::MAX, "t"))
    );
}

#[test]
fn seconds_are_read_into_milliseconds() {
    assert_eq!(seconds("0"), Some(0));
    assert_eq!(seconds("7"), Some(7000));
    assert_eq!(seconds("1.5"), Some(1500));
    assert_eq!(seconds("12.3456"), Some(12345));
    assert_eq!(seconds("0.001"), Some(1));
    assert_eq!(seconds("0.0009"), Some(0));
    assert_eq!(seconds(".5"), Some(500));
    assert_eq!(seconds("5."), Some(5000));
    assert_eq!(seconds("007.07"), Some(7070));
    assert_eq!(seconds("00000000000000000000000000000001"), Some(1000));
}

#[test]
fn malformed_seconds_are_refused() {
    assert_eq!(seconds(""), None);
    assert_eq!(seconds("."), None);
    assert_eq!(seconds("1.2.3"), None);
    assert_eq!(seconds("1..2"), None);
    assert_eq!(seconds("-1"), None);
    assert_eq!(seconds("+1"), None);
    assert_eq!(seconds("1e3"), None);
    assert_eq!(seconds("1,5"), None);
    assert_eq!(seconds(" 1"), None);
    assert_eq!(seconds("\u{0661}"), None);
}

#[test]
fn seconds_that_do_not_fit_are_refused() {
    assert_eq!(seconds("9223372036854775.807"), Some(i64::MAX));
    assert_eq!(seconds("9223372036854775.8079"), Some(i64::MAX));
    assert_eq!(seconds("9223372036854775.808"), None);
    assert_eq!(seconds("9223372036854776"), None);
    assert_eq!(seconds("99999999999999999999999999"), None);
    assert_eq!(seconds("9223372036854775"), Some(9223372036854775000));
}

#[test]
fn manifest_is_found_decoded_and_wrapped() {
    let info = "status=ok&player_response=%7B%22captions%22%3A%7B%22\
        captionTracks%22%3A%5B%7B%22baseUrl%22%3A%22https%3A%2F%2Fexample.com%2Ftimedtext%3Fv%3Dabc\
        %5Cu0026lang%3Den%22%2C%22languageCode%22%3A%22en%22%2C%22isTranslatable%22%3Atrue%7D%5D%2C%22more%22%3A1%7D%7D&x=1";
    assert_eq!(
        caption_manifest(info),
        Some(
            "{\"captionTracks\":[{\"baseUrl\":\"https://example.com/timedtext?v=abc&lang=en\",\
             \"languageCode\":\"en\",\"isTranslatable\":true}]}"
                .to_string()
        )
    );
}

#[test]
fn manifest_ends_at_the_first_flag() {
    let info = "captionTracks-a-isTranslatable-b-false-c-isTranslatable-true";
    assert_eq!(
        caption_manifest(info),
        Some("{\"captionTracks-a-isTranslatable-b-false}]}".to_string())
    );
}

#[test]
fn info_without_a_manifest_gives_none() {
    assert_eq!(caption_manifest(""), None);
    assert_eq!(caption_manifest("status=fail&reason=gone"), None);
    assert_eq!(caption_manifest("captionTracks but never the flag"), None);
    assert_eq!(caption_manifest("captionTracks\nisTranslatable true"), None);
}

#[test]
fn manifest_that_is_not_percent_encoded_gives_none() {
    assert_eq!(caption_manifest("captionTracks%zzisTranslatable true"), None);
    assert_eq!(caption_manifest("captionTracks%4isTranslatable true%"), None);
    assert_eq!(caption_manifest("captionTracks \u{00e9} isTranslatable true"), None);
    assert_eq!(manifest_from_match("100%"), None);
    assert_eq!(manifest_from_match("a%2"), None);
}

#[test]
fn manifest_from_match_writes_out_escaped_ampersands() {
    assert_eq!(
        manifest_from_match("a%22%3A1%5Cu0026b\\u0026c"),
        Some("{\"a\":1&b&c}]}".to_string())
    );
    assert_eq!(manifest_from_match(""), Some("{\"}]}".to_string()));
}

#[test]
fn percent_decoding_replaces_escapes() {
    assert_eq!(percent_decode("https%3A%2F%2Fgithub.com"), Some("https://github.com".to_string()));
    assert_eq!(percent_decode("%41%4a%4A%7e"), Some("AJJ~".to_string()));
    assert_eq!(percent_decode("%e9"), Some("\u{e9}".to_string()));
    assert_eq!(percent_decode("%2541"), Some("%41".to_string()));
    assert_eq!(percent_decode("plain"), Some("plain".to_string()));
    assert_eq!(percent_decode(""), Some(String::new()));
    assert_eq!(percent_decode("%"), None);
    assert_eq!(percent_decode("%+5"), None);
    assert_eq!(percent_decode("%%41"), None);
    assert_eq!(percent_decode("caf\u{e9}"), None);
    assert!(is_percent_encoded(&chars("a%20b")));
    assert!(!is_percent_encoded(&chars("a%2")));
    assert!(!is_percent_encoded(&chars("a%g0")));
}

#[test]
fn first_track_in_the_language_is_selected() {
    let tracks = vec![
        CaptionTrack { base_url: "u-de".to_string(), language_code: "de".to_string() },
        CaptionTrack { base_url: "u-en-1".to_string(), language_code: "en".to_string() },
        CaptionTrack { base_url: "u-en-2".to_string(), language_code: "en".to_string() },
    ];
    assert_eq!(select_track(&tracks, "en"), Some(&tracks[1]));
    assert_eq!(select_track(&tracks, "de"), Some(&tracks[0]));
    assert_eq!(select_track(&tracks, "fr"), None);
    assert_eq!(select_track(&tracks, "EN"), None);
    assert_eq!(select_track(&[], "en"), None);
}

#[test]
fn replace_all_takes_occurrences_from_the_left() {
    assert_eq!(replace_all(&chars("a-b-c"), &chars("-"), &chars("+")), chars("a+b+c"));
    assert_eq!(replace_all(&chars("aaa"), &chars("aa"), &chars("b")), chars("ba"));
    assert_eq!(replace_all(&chars("abc"), &chars("x"), &chars("y")), chars("abc"));
    assert_eq!(replace_all(&chars("abc"), &chars(""), &chars("y")), chars("abc"));
    assert_eq!(replace_all(&chars("abab"), &chars("ab"), &chars("")), chars(""));
    assert_eq!(replace_all(&chars(""), &chars("ab"), &chars("c")), chars(""));
    assert_eq!(replace_all(&chars("xab"), &chars("ab"), &chars("abab")), chars("xabab"));
}

#[test]
fn split_keeps_empty_pieces() {
    assert_eq!(split_on(&chars("a,b,,c"), &chars(",")), vec![chars("a"), chars("b"), chars(""), chars("c")]);
    assert_eq!(split_on(&chars("a</x>b</x>"), &chars("</x>")), vec![chars("a"), chars("b"), chars("")]);
    assert_eq!(split_on(&chars(""), &chars(",")), vec![chars("")]);
    assert_eq!(split_on(&chars("abc"), &chars("")), vec![chars("abc")]);
    assert_eq!(split_on(&chars("aaa"), &chars("aa")), vec![chars(""), chars("a")]);
    assert_eq!(split_on(&chars(","), &chars(",")), vec![chars(""), chars("")]);
}

#[test]
fn text_helpers_agree_with_std() {
    assert_eq!(to_chars("h\u{e9}llo"), chars("h\u{e9}llo"));
    assert_eq!(from_chars(&chars("h\u{e9}llo")), "h\u{e9}llo".to_string());
    assert!(matches_at(&chars("hello"), &chars("llo"), 2));
    assert!(!matches_at(&chars("hello"), &chars("llo"), 3));
    assert!(!matches_at(&chars("hello"), &chars("hello!"), 0));
    assert!(matches_at(&chars("hello"), &chars(""), 5));
    assert!(!matches_at(&chars("hello"), &chars(""), 6));
    assert!(is_blank(&chars("")));
    assert!(is_blank(&chars(" \t\r\n\u{a0}\u{3000}")));
    assert!(!is_blank(&chars("  x ")));
}

#[test]
fn transcript_is_cut_at_fragment_ends() {
    let transcript =
        "<?xml version=\"1.0\" encoding=\"utf-8\" ?><transcript><text a>one</text> <text b>two</text></transcript>";
    assert_eq!(
        transcript_pieces(transcript),
        vec![chars("<text a>one"), chars(" <text b>two"), chars("")]
    );
    assert_eq!(transcript_pieces("no wrapper"), vec![chars("no wrapper")]);
}

#[test]
fn tags_inside_a_fragment_go_and_its_text_stays() {
    let transcript = "<?xml version=\"1.0\" encoding=\"utf-8\" ?><transcript><text start=\"0\" dur=\"1\"><b>Hi</b> there</text></transcript>";
    assert_eq!(parse_transcript(transcript), Some(vec![entry(0, 1000, "Hi there")]));
}
