//! The decisions of the caption scraper.
//!
//! Scraping a track takes three documents from the network: the info
//! document of the video, the transcript of the selected caption track, and
//! the details of the video. Fetching them, and reading the manifest's JSON
//! into caption tracks, is done by the caller: a [`Scrape`] says what it
//! needs next, is told what came of it, and decides how to go on. Any
//! failure ends the scrape without a track; there are no partial results.

use vstd::prelude::*;
use crate::bridge::optional_text;
use crate::captions::{
    CaptionTrack, CaptionTrackView, caption_manifest, captions_of, manifest_of, parse_transcript,
    select_track, track_in_language, tracks_view,
};
use crate::entry::{Entry, EntryView, entries_view};

verus! {

/// What is shown about a video beside its captions.
#[derive(Debug, PartialEq, Eq)]
pub struct VideoDetails {
    pub title: String,
    pub channel_id: String,
    pub channel_title: String,
}

pub struct VideoDetailsView {
    pub title: Seq<char>,
    pub channel_id: Seq<char>,
    pub channel_title: Seq<char>,
}

impl View for VideoDetails {
    type V = VideoDetailsView;

    open spec fn view(&self) -> VideoDetailsView {
        VideoDetailsView {
            title: self.title@,
            channel_id: self.channel_id@,
            channel_title: self.channel_title@,
        }
    }
}

/// A subtitle track: the captions of one video in one language.
#[derive(Debug, PartialEq, Eq)]
pub struct Subtitles {
    pub entries: Vec<Entry>,
    pub video_id: String,
    pub language: String,
    pub video_title: String,
    pub uploader_id: String,
    pub uploader_name: String,
}

pub struct SubtitlesView {
    pub entries: Seq<EntryView>,
    pub video_id: Seq<char>,
    pub language: Seq<char>,
    pub video_title: Seq<char>,
    pub uploader_id: Seq<char>,
    pub uploader_name: Seq<char>,
}

impl View for Subtitles {
    type V = SubtitlesView;

    open spec fn view(&self) -> SubtitlesView {
        SubtitlesView {
            entries: entries_view(self.entries@),
            video_id: self.video_id@,
            language: self.language@,
            video_title: self.video_title@,
            uploader_id: self.uploader_id@,
            uploader_name: self.uploader_name@,
        }
    }
}

/// The value of an optional track.
pub open spec fn optional_subtitles(track: Option<Subtitles>) -> Option<SubtitlesView> {
    match track {
        Some(t) => Some(t@),
        None => None,
    }
}

/// What a scrape asks its caller to do next. Every action concerns the
/// video of the scrape.
#[derive(Debug, PartialEq, Eq)]
pub enum ScrapeAction {
    /// Fetch the info document of the video.
    FetchVideoInfo,
    /// Read this JSON document into the caption tracks it lists.
    ReadManifest(String),
    /// Fetch the transcript at this address.
    FetchTranscript(String),
    /// Fetch the details of the video.
    FetchVideoDetails,
    /// Nothing more: the scrape has ended, with the track or without.
    Finish(Option<Subtitles>),
}

pub enum ScrapeActionView {
    FetchVideoInfo,
    ReadManifest(Seq<char>),
    FetchTranscript(Seq<char>),
    FetchVideoDetails,
    Finish(Option<SubtitlesView>),
}

impl View for ScrapeAction {
    type V = ScrapeActionView;

    open spec fn view(&self) -> ScrapeActionView {
        match self {
            ScrapeAction::FetchVideoInfo => ScrapeActionView::FetchVideoInfo,
            ScrapeAction::ReadManifest(json) => ScrapeActionView::ReadManifest(json@),
            ScrapeAction::FetchTranscript(url) => ScrapeActionView::FetchTranscript(url@),
            ScrapeAction::FetchVideoDetails => ScrapeActionView::FetchVideoDetails,
            ScrapeAction::Finish(track) => ScrapeActionView::Finish(optional_subtitles(*track)),
        }
    }
}

/// What came of the action that a scrape asked for; `None` where it failed.
#[derive(Debug, PartialEq, Eq)]
pub enum ScrapeEvent {
    VideoInfo(Option<String>),
    Manifest(Option<Vec<CaptionTrack>>),
    Transcript(Option<String>),
    VideoDetails(Option<VideoDetails>),
}

pub enum ScrapeEventView {
    VideoInfo(Option<Seq<char>>),
    Manifest(Option<Seq<CaptionTrackView>>),
    Transcript(Option<Seq<char>>),
    VideoDetails(Option<VideoDetailsView>),
}

impl View for ScrapeEvent {
    type V = ScrapeEventView;

    open spec fn view(&self) -> ScrapeEventView {
        match self {
            ScrapeEvent::VideoInfo(document) => ScrapeEventView::VideoInfo(
                optional_text(*document),
            ),
            ScrapeEvent::Manifest(tracks) => ScrapeEventView::Manifest(
                match tracks {
                    Some(list) => Some(tracks_view(list@)),
                    None => None,
                },
            ),
            ScrapeEvent::Transcript(document) => ScrapeEventView::Transcript(
                optional_text(*document),
            ),
            ScrapeEvent::VideoDetails(details) => ScrapeEventView::VideoDetails(
                match details {
                    Some(d) => Some(d@),
                    None => None,
                },
            ),
        }
    }
}

/// How far a scrape has come.
#[derive(Debug, PartialEq, Eq)]
pub enum ScrapePhase {
    FetchingVideoInfo,
    ReadingManifest,
    FetchingTranscript,
    /// The captions are read; the details of the video are being fetched.
    FetchingVideoDetails(Vec<Entry>),
    Finished,
}

pub enum ScrapePhaseView {
    FetchingVideoInfo,
    ReadingManifest,
    FetchingTranscript,
    FetchingVideoDetails(Seq<EntryView>),
    Finished,
}

impl View for ScrapePhase {
    type V = ScrapePhaseView;

    open spec fn view(&self) -> ScrapePhaseView {
        match self {
            ScrapePhase::FetchingVideoInfo => ScrapePhaseView::FetchingVideoInfo,
            ScrapePhase::ReadingManifest => ScrapePhaseView::ReadingManifest,
            ScrapePhase::FetchingTranscript => ScrapePhaseView::FetchingTranscript,
            ScrapePhase::FetchingVideoDetails(entries) => ScrapePhaseView::FetchingVideoDetails(
                entries_view(entries@),
            ),
            ScrapePhase::Finished => ScrapePhaseView::Finished,
        }
    }
}

/// The scrape of the captions of one video in one language, under way.
#[derive(Debug, PartialEq, Eq)]
pub struct Scrape {
    pub video_id: String,
    pub language: String,
    pub phase: ScrapePhase,
}

pub struct ScrapeView {
    pub video_id: Seq<char>,
    pub language: Seq<char>,
    pub phase: ScrapePhaseView,
}

impl View for Scrape {
    type V = ScrapeView;

    open spec fn view(&self) -> ScrapeView {
        ScrapeView { video_id: self.video_id@, language: self.language@, phase: self.phase@ }
    }
}

/// The scrape at its end, with the track or without.
pub open spec fn scrape_finished(scrape: ScrapeView, track: Option<SubtitlesView>) -> (
    ScrapeView,
    ScrapeActionView,
) {
    (ScrapeView { phase: ScrapePhaseView::Finished, ..scrape }, ScrapeActionView::Finish(track))
}

/// The scrape in a new phase, with the action that the phase waits for.
pub open spec fn scrape_proceeding(
    scrape: ScrapeView,
    phase: ScrapePhaseView,
    action: ScrapeActionView,
) -> (ScrapeView, ScrapeActionView) {
    (ScrapeView { phase, ..scrape }, action)
}

/// The track that a scrape assembles from the captions and the details of
/// the video.
pub open spec fn assembled(
    scrape: ScrapeView,
    entries: Seq<EntryView>,
    details: VideoDetailsView,
) -> SubtitlesView {
    SubtitlesView {
        entries,
        video_id: scrape.video_id,
        language: scrape.language,
        video_title: details.title,
        uploader_id: details.channel_id,
        uploader_name: details.channel_title,
    }
}

/// How a scrape goes on when it is told what came of its last action.
///
/// A failed action, a document that cannot be read, a manifest without a
/// track in the language, and an event that does not answer the action that
/// the scrape waits for all end the scrape without a track.
pub open spec fn scrape_step_spec(scrape: ScrapeView, event: ScrapeEventView) -> (
    ScrapeView,
    ScrapeActionView,
) {
    match (scrape.phase, event) {
        (
            ScrapePhaseView::FetchingVideoInfo,
            ScrapeEventView::VideoInfo(Some(document)),
        ) => match manifest_of(document) {
            Some(json) => scrape_proceeding(
                scrape,
                ScrapePhaseView::ReadingManifest,
                ScrapeActionView::ReadManifest(json),
            ),
            None => scrape_finished(scrape, None),
        },
        (
            ScrapePhaseView::ReadingManifest,
            ScrapeEventView::Manifest(Some(tracks)),
        ) => match track_in_language(tracks, scrape.language) {
            Some(track) => scrape_proceeding(
                scrape,
                ScrapePhaseView::FetchingTranscript,
                ScrapeActionView::FetchTranscript(track.base_url),
            ),
            None => scrape_finished(scrape, None),
        },
        (
            ScrapePhaseView::FetchingTranscript,
            ScrapeEventView::Transcript(Some(document)),
        ) => match captions_of(document) {
            Some(entries) => scrape_proceeding(
                scrape,
                ScrapePhaseView::FetchingVideoDetails(entries),
                ScrapeActionView::FetchVideoDetails,
            ),
            None => scrape_finished(scrape, None),
        },
        (
            ScrapePhaseView::FetchingVideoDetails(entries),
            ScrapeEventView::VideoDetails(Some(details)),
        ) => scrape_finished(scrape, Some(assembled(scrape, entries, details))),
        _ => scrape_finished(scrape, None),
    }
}

impl Scrape {
    /// Begins the scrape of the captions of a video in a language. The
    /// first action is [`ScrapeAction::FetchVideoInfo`].
    pub fn begin(video_id: String, language: String) -> (start: (Scrape, ScrapeAction))
        ensures
            start.0@ == (ScrapeView {
                video_id: video_id@,
                language: language@,
                phase: ScrapePhaseView::FetchingVideoInfo,
            }),
            start.1@ == ScrapeActionView::FetchVideoInfo,
    {
        (
            Scrape { video_id, language, phase: ScrapePhase::FetchingVideoInfo },
            ScrapeAction::FetchVideoInfo,
        )
    }

    /// Takes what came of the last action and decides how to go on.
    pub fn step(self, event: ScrapeEvent) -> (next: (Scrape, ScrapeAction))
        ensures
            (next.0@, next.1@) == scrape_step_spec(self@, event@),
    {
        let Scrape { video_id, language, phase } = self;
        match (phase, event) {
            (ScrapePhase::FetchingVideoInfo, ScrapeEvent::VideoInfo(Some(document))) => {
                match caption_manifest(document.as_str()) {
                    Some(json) => (
                        Scrape { video_id, language, phase: ScrapePhase::ReadingManifest },
                        ScrapeAction::ReadManifest(json),
                    ),
                    None => (
                        Scrape { video_id, language, phase: ScrapePhase::Finished },
                        ScrapeAction::Finish(None),
                    ),
                }
            },
            (ScrapePhase::ReadingManifest, ScrapeEvent::Manifest(Some(tracks))) => {
                match select_track(tracks.as_slice(), language.as_str()) {
                    Some(track) => {
                        let url = track.base_url.clone();
                        (
                            Scrape { video_id, language, phase: ScrapePhase::FetchingTranscript },
                            ScrapeAction::FetchTranscript(url),
                        )
                    },
                    None => (
                        Scrape { video_id, language, phase: ScrapePhase::Finished },
                        ScrapeAction::Finish(None),
                    ),
                }
            },
            (ScrapePhase::FetchingTranscript, ScrapeEvent::Transcript(Some(document))) => {
                match parse_transcript(document.as_str()) {
                    Some(entries) => (
                        Scrape {
                            video_id,
                            language,
                            phase: ScrapePhase::FetchingVideoDetails(entries),
                        },
                        ScrapeAction::FetchVideoDetails,
                    ),
                    None => (
                        Scrape { video_id, language, phase: ScrapePhase::Finished },
                        ScrapeAction::Finish(None),
                    ),
                }
            },
            (
                ScrapePhase::FetchingVideoDetails(entries),
                ScrapeEvent::VideoDetails(Some(details)),
            ) => {
                let track = Subtitles {
                    entries,
                    video_id: video_id.clone(),
                    language: language.clone(),
                    video_title: details.title,
                    uploader_id: details.channel_id,
                    uploader_name: details.channel_title,
                };
                (
                    Scrape { video_id, language, phase: ScrapePhase::Finished },
                    ScrapeAction::Finish(Some(track)),
                )
            },
            _ => (
                Scrape { video_id, language, phase: ScrapePhase::Finished },
                ScrapeAction::Finish(None),
            ),
        }
    }
}

} // verus!
