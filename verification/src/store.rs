//! The decisions of the subtitle store.
//!
//! The store keeps one track for each pair of video and language, makes a
//! track on first access by scraping, and records each accepted update in an
//! append-only change log. Reading the records, scraping and reading the
//! clock are done by the caller: a [`Session`] says what to do next, is told
//! what came of it, and decides how to go on, until it finishes with an
//! [`Outcome`].
//!
//! What an update writes, it writes inside one transaction of the record
//! store: where a write fails, the session has the transaction undone
//! before it ends, so that no change is recorded without the track being
//! replaced, nor the other way round.

use vstd::prelude::*;
use crate::diff::{Difference, DifferenceView, diff, differences_view, recorded_diff};
use crate::entry::{Entry, EntryView, clone_entries, entries_view, optional_entries};
use crate::export::{CHUNK_SIZE, Chunk, Format, chunked, chunks_view, export_chunks, exported};
use crate::scraper::{Subtitles, SubtitlesView};
use crate::status::{
    Origin, StorageFault, StorageFaultView, StoreError, StoreErrorView, classified, classify,
};

verus! {

/// The identity of a track: a video and a language.
#[derive(Debug, PartialEq, Eq)]
pub struct SubtitleId {
    pub video_id: String,
    pub language: String,
}

pub struct KeyView {
    pub video_id: Seq<char>,
    pub language: Seq<char>,
}

impl View for SubtitleId {
    type V = KeyView;

    open spec fn view(&self) -> KeyView {
        KeyView { video_id: self.video_id@, language: self.language@ }
    }
}

/// One record of the change log: who changed a track, when, and what.
#[derive(Debug, PartialEq, Eq)]
pub struct ChangeRecord {
    /// Milliseconds since the epoch.
    pub timestamp: i64,
    pub author: String,
    pub changes: Vec<Difference>,
}

pub struct ChangeRecordView {
    pub timestamp: int,
    pub author: Seq<char>,
    pub changes: Seq<DifferenceView>,
}

impl View for ChangeRecord {
    type V = ChangeRecordView;

    open spec fn view(&self) -> ChangeRecordView {
        ChangeRecordView {
            timestamp: self.timestamp as int,
            author: self.author@,
            changes: differences_view(self.changes@),
        }
    }
}

/// What a caller asks of the store.
#[derive(Debug, PartialEq, Eq)]
pub enum Operation {
    /// Return the track, making it first if it does not exist.
    Get,
    /// Replace the entries of the track, in the name of `author`.
    Update { entries: Vec<Entry>, author: String },
    /// Return the track as a file in the given format, in chunks.
    Export { format: Format },
}

pub enum OperationView {
    Get,
    Update { entries: Seq<EntryView>, author: Seq<char> },
    Export { format: Format },
}

impl View for Operation {
    type V = OperationView;

    open spec fn view(&self) -> OperationView {
        match self {
            Operation::Get => OperationView::Get,
            Operation::Update { entries, author } => OperationView::Update {
                entries: entries_view(entries@),
                author: author@,
            },
            Operation::Export { format } => OperationView::Export { format: *format },
        }
    }
}

/// How an operation ended.
#[derive(Debug, PartialEq, Eq)]
pub enum Outcome {
    /// The entries of the track, as stored.
    Track(Vec<Entry>),
    /// The update was accepted.
    Updated,
    /// The exported file, in chunks.
    File(Vec<Chunk>),
    Failed(StoreError),
}

pub enum OutcomeView {
    Track(Seq<EntryView>),
    Updated,
    File(Seq<Seq<u8>>),
    Failed(StoreErrorView),
}

impl View for Outcome {
    type V = OutcomeView;

    open spec fn view(&self) -> OutcomeView {
        match self {
            Outcome::Track(entries) => OutcomeView::Track(entries_view(entries@)),
            Outcome::Updated => OutcomeView::Updated,
            Outcome::File(chunks) => OutcomeView::File(chunks_view(chunks@)),
            Outcome::Failed(error) => OutcomeView::Failed(error@),
        }
    }
}

/// What a session asks its caller to do next. Every action concerns the
/// track under the session's key.
#[derive(Debug, PartialEq, Eq)]
pub enum Action {
    /// Read the stored track.
    Lookup,
    /// Scrape the captions of the video in the language.
    Scrape,
    /// Store a new track with these entries.
    Insert(Vec<Entry>),
    /// Begin a transaction.
    Begin,
    /// Read the clock.
    ReadClock,
    /// Append this record to the change log.
    Append(ChangeRecord),
    /// Replace the entries of the stored track by these, all of them.
    Overwrite(Vec<Entry>),
    /// End the transaction and keep what was written in it.
    Commit,
    /// End the transaction and undo what was written in it.
    Rollback,
    /// Nothing more: the operation has ended.
    Finish(Outcome),
}

pub enum ActionView {
    Lookup,
    Scrape,
    Insert(Seq<EntryView>),
    Begin,
    ReadClock,
    Append(ChangeRecordView),
    Overwrite(Seq<EntryView>),
    Commit,
    Rollback,
    Finish(OutcomeView),
}

impl View for Action {
    type V = ActionView;

    open spec fn view(&self) -> ActionView {
        match self {
            Action::Lookup => ActionView::Lookup,
            Action::Scrape => ActionView::Scrape,
            Action::Insert(entries) => ActionView::Insert(entries_view(entries@)),
            Action::Begin => ActionView::Begin,
            Action::ReadClock => ActionView::ReadClock,
            Action::Append(record) => ActionView::Append(record@),
            Action::Overwrite(entries) => ActionView::Overwrite(entries_view(entries@)),
            Action::Commit => ActionView::Commit,
            Action::Rollback => ActionView::Rollback,
            Action::Finish(outcome) => ActionView::Finish(outcome@),
        }
    }
}

/// What came of the action that a session asked for.
#[derive(Debug, PartialEq, Eq)]
pub enum Event {
    /// The stored track was read: its entries, or nothing where there is no
    /// such track.
    Found(Option<Vec<Entry>>),
    /// The scraper has answered: the captions, or nothing where it failed.
    Scraped(Option<Vec<Entry>>),
    Inserted,
    Begun,
    /// The clock was read: milliseconds since the epoch.
    Time(i64),
    Appended,
    Overwritten,
    Committed,
    RolledBack,
    /// The record store failed at the action.
    Failed(StorageFault),
}

pub enum EventView {
    Found(Option<Seq<EntryView>>),
    Scraped(Option<Seq<EntryView>>),
    Inserted,
    Begun,
    Time(int),
    Appended,
    Overwritten,
    Committed,
    RolledBack,
    Failed(StorageFaultView),
}

impl View for Event {
    type V = EventView;

    open spec fn view(&self) -> EventView {
        match self {
            Event::Found(entries) => EventView::Found(optional_entries(*entries)),
            Event::Scraped(entries) => EventView::Scraped(optional_entries(*entries)),
            Event::Inserted => EventView::Inserted,
            Event::Begun => EventView::Begun,
            Event::Time(now) => EventView::Time(*now as int),
            Event::Appended => EventView::Appended,
            Event::Overwritten => EventView::Overwritten,
            Event::Committed => EventView::Committed,
            Event::RolledBack => EventView::RolledBack,
            Event::Failed(failure) => EventView::Failed(failure@),
        }
    }
}

/// How far a session has come.
#[derive(Debug, PartialEq, Eq)]
pub enum Phase {
    /// The track is being looked up.
    Looking,
    /// There was no track: it is being scraped.
    Scraping,
    /// The scraped track is being stored.
    Inserting,
    /// The track is read back after it was stored.
    Rereading,
    /// An update changes the track: its transaction is being begun.
    Beginning(Vec<Difference>),
    /// The clock is being read.
    Timing(Vec<Difference>),
    /// The change is being recorded.
    Logging,
    /// The stored entries are being replaced.
    Overwriting,
    /// The transaction is being ended, to keep what was written.
    Committing,
    /// The update failed with this error: what it wrote is being undone.
    RollingBack(StoreError),
    Finished,
}

pub enum PhaseView {
    Looking,
    Scraping,
    Inserting,
    Rereading,
    Beginning(Seq<DifferenceView>),
    Timing(Seq<DifferenceView>),
    Logging,
    Overwriting,
    Committing,
    RollingBack(StoreErrorView),
    Finished,
}

impl View for Phase {
    type V = PhaseView;

    open spec fn view(&self) -> PhaseView {
        match self {
            Phase::Looking => PhaseView::Looking,
            Phase::Scraping => PhaseView::Scraping,
            Phase::Inserting => PhaseView::Inserting,
            Phase::Rereading => PhaseView::Rereading,
            Phase::Beginning(changes) => PhaseView::Beginning(differences_view(changes@)),
            Phase::Timing(changes) => PhaseView::Timing(differences_view(changes@)),
            Phase::Logging => PhaseView::Logging,
            Phase::Overwriting => PhaseView::Overwriting,
            Phase::Committing => PhaseView::Committing,
            Phase::RollingBack(error) => PhaseView::RollingBack(error@),
            Phase::Finished => PhaseView::Finished,
        }
    }
}

/// One operation of the store on one track, under way.
#[derive(Debug, PartialEq, Eq)]
pub struct Session {
    pub key: SubtitleId,
    pub operation: Operation,
    pub phase: Phase,
}

pub struct SessionView {
    pub key: KeyView,
    pub operation: OperationView,
    pub phase: PhaseView,
}

impl View for Session {
    type V = SessionView;

    open spec fn view(&self) -> SessionView {
        SessionView { key: self.key@, operation: self.operation@, phase: self.phase@ }
    }
}

/// The session at its end, with the outcome.
pub open spec fn finished(session: SessionView, outcome: OutcomeView) -> (SessionView, ActionView) {
    (SessionView { phase: PhaseView::Finished, ..session }, ActionView::Finish(outcome))
}

/// The session in a new phase, with the action that the phase waits for.
pub open spec fn proceeding(session: SessionView, phase: PhaseView, action: ActionView) -> (
    SessionView,
    ActionView,
) {
    (SessionView { phase, ..session }, action)
}

/// What a session does with the track once it has it: a get returns it, an
/// export writes it as a file, and an update compares it with the new
/// entries, ends at once where nothing differs, and begins its transaction
/// where something does.
pub open spec fn served(session: SessionView, existing: Seq<EntryView>) -> (
    SessionView,
    ActionView,
) {
    match session.operation {
        OperationView::Get => finished(session, OutcomeView::Track(existing)),
        OperationView::Update { entries, author } => {
            if recorded_diff(existing, entries).len() == 0 {
                finished(session, OutcomeView::Updated)
            } else {
                proceeding(
                    session,
                    PhaseView::Beginning(recorded_diff(existing, entries)),
                    ActionView::Begin,
                )
            }
        },
        OperationView::Export { format } => finished(
            session,
            OutcomeView::File(chunked(exported(existing, format), CHUNK_SIZE as int)),
        ),
    }
}

/// The session failed at the record store.
pub open spec fn failed(session: SessionView, failure: StorageFaultView, origin: Origin) -> (
    SessionView,
    ActionView,
) {
    finished(session, OutcomeView::Failed(classified(failure, origin)))
}

/// Whether a transaction is open in this phase.
pub open spec fn in_transaction(phase: PhaseView) -> bool {
    phase is Timing || phase is Logging || phase is Overwriting || phase is Committing
}

/// The error with which an update ends when this event cuts its
/// transaction short: the failure of the record store, or an internal error
/// where the event does not answer the action.
pub open spec fn interruption(event: EventView) -> StoreErrorView {
    match event {
        EventView::Failed(failure) => classified(failure, Origin::Caller),
        _ => StoreErrorView::Internal,
    }
}

/// The session has what it wrote undone, to end with the error afterwards.
pub open spec fn undoing(session: SessionView, error: StoreErrorView) -> (
    SessionView,
    ActionView,
) {
    proceeding(session, PhaseView::RollingBack(error), ActionView::Rollback)
}

/// How an update goes on inside its transaction: from the clock to the
/// change log to the track to the commit. Whatever else comes, a failure or
/// an event out of turn, the session has the transaction undone.
pub open spec fn transaction_step(session: SessionView, event: EventView) -> (
    SessionView,
    ActionView,
) {
    match (session.phase, event, session.operation) {
        (
            PhaseView::Timing(changes),
            EventView::Time(now),
            OperationView::Update { entries, author },
        ) => proceeding(
            session,
            PhaseView::Logging,
            ActionView::Append(ChangeRecordView { timestamp: now, author, changes }),
        ),
        (
            PhaseView::Logging,
            EventView::Appended,
            OperationView::Update { entries, author },
        ) => proceeding(session, PhaseView::Overwriting, ActionView::Overwrite(entries)),
        (PhaseView::Overwriting, EventView::Overwritten, _) => proceeding(
            session,
            PhaseView::Committing,
            ActionView::Commit,
        ),
        (PhaseView::Committing, EventView::Committed, _) => finished(
            session,
            OutcomeView::Updated,
        ),
        _ => undoing(session, interruption(event)),
    }
}

/// How a session goes on when it is told what came of its last action.
///
/// Outside a transaction, an event that does not answer the action that the
/// session waits for ends the session with an internal error. Where the
/// undoing of a transaction fails, the session ends with
/// [`StoreError::Inconsistent`], whatever the update had failed with.
pub open spec fn step_spec(session: SessionView, event: EventView) -> (SessionView, ActionView) {
    if in_transaction(session.phase) {
        transaction_step(session, event)
    } else {
        match (session.phase, event) {
            (PhaseView::Looking, EventView::Found(Some(existing))) => served(session, existing),
            (PhaseView::Looking, EventView::Found(None)) => proceeding(
                session,
                PhaseView::Scraping,
                ActionView::Scrape,
            ),
            (PhaseView::Looking, EventView::Failed(failure)) => failed(
                session,
                failure,
                Origin::Store,
            ),
            (PhaseView::Scraping, EventView::Scraped(Some(entries))) => proceeding(
                session,
                PhaseView::Inserting,
                ActionView::Insert(entries),
            ),
            (PhaseView::Scraping, EventView::Scraped(None)) => finished(
                session,
                OutcomeView::Failed(StoreErrorView::NotFound),
            ),
            (PhaseView::Inserting, EventView::Inserted) => proceeding(
                session,
                PhaseView::Rereading,
                ActionView::Lookup,
            ),
            (
                PhaseView::Inserting,
                EventView::Failed(StorageFaultView::UniqueViolation),
            ) => proceeding(session, PhaseView::Rereading, ActionView::Lookup),
            (PhaseView::Inserting, EventView::Failed(failure)) => failed(
                session,
                failure,
                Origin::Store,
            ),
            (PhaseView::Rereading, EventView::Found(Some(existing))) => served(session, existing),
            (PhaseView::Rereading, EventView::Found(None)) => finished(
                session,
                OutcomeView::Failed(StoreErrorView::NotFound),
            ),
            (PhaseView::Rereading, EventView::Failed(failure)) => failed(
                session,
                failure,
                Origin::Store,
            ),
            (PhaseView::Beginning(changes), EventView::Begun) => proceeding(
                session,
                PhaseView::Timing(changes),
                ActionView::ReadClock,
            ),
            (PhaseView::Beginning(changes), EventView::Failed(failure)) => failed(
                session,
                failure,
                Origin::Store,
            ),
            (PhaseView::RollingBack(error), EventView::RolledBack) => finished(
                session,
                OutcomeView::Failed(error),
            ),
            (PhaseView::RollingBack(error), _) => finished(
                session,
                OutcomeView::Failed(StoreErrorView::Inconsistent),
            ),
            _ => finished(session, OutcomeView::Failed(StoreErrorView::Internal)),
        }
    }
}

/// The session of an operation at its beginning.
pub open spec fn begun(key: KeyView, operation: OperationView) -> SessionView {
    SessionView { key, operation, phase: PhaseView::Looking }
}

/// A request for a track as a file. `format` is the number of a [`Format`].
#[derive(Debug, PartialEq, Eq)]
pub struct DownloadRequest {
    pub video_id: String,
    pub language: String,
    pub format: i32,
}

/// The answer to an accepted update.
#[derive(Debug, PartialEq, Eq)]
pub struct SetSubtitleResponse {}

/// Begins the session that returns a track, making it first where it does
/// not exist.
pub fn get_subtitles(request: SubtitleId) -> (start: (Session, Action))
    ensures
        start.0@ == begun(request@, OperationView::Get),
        start.1@ == ActionView::Lookup,
{
    Session::begin(request, Operation::Get)
}

/// Begins the session that replaces the entries of a track by those of
/// `request`, in the name of `author`. Of the request only the video, the
/// language and the entries count.
pub fn set_subtitles(request: Subtitles, author: String) -> (start: (Session, Action))
    ensures
        start.0@ == begun(
            KeyView { video_id: request@.video_id, language: request@.language },
            OperationView::Update { entries: request@.entries, author: author@ },
        ),
        start.1@ == ActionView::Lookup,
{
    let Subtitles { entries, video_id, language, video_title, uploader_id, uploader_name } =
        request;
    Session::begin(SubtitleId { video_id, language }, Operation::Update { entries, author })
}

/// Begins the session that returns a track as a file, in chunks.
pub fn download_subtitles(request: DownloadRequest) -> (start: (Session, Action))
    requires
        request.format == 0,
    ensures
        start.0@ == begun(
            KeyView { video_id: request.video_id@, language: request.language@ },
            OperationView::Export { format: Format::Srt },
        ),
        start.1@ == ActionView::Lookup,
{
    let DownloadRequest { video_id, language, format } = request;
    Session::begin(SubtitleId { video_id, language }, Operation::Export { format: Format::Srt })
}

/// The track that a get returns: the stored entries under their video and
/// language. What else is shown about the video is not stored and stays
/// empty.
pub open spec fn stored_track(id: KeyView, entries: Seq<EntryView>) -> SubtitlesView {
    SubtitlesView {
        entries,
        video_id: id.video_id,
        language: id.language,
        video_title: Seq::empty(),
        uploader_id: Seq::empty(),
        uploader_name: Seq::empty(),
    }
}

/// Puts the stored entries of a track together with its identity.
pub fn subtitles_of(id: SubtitleId, entries: Vec<Entry>) -> (track: Subtitles)
    ensures
        track@ == stored_track(id@, entries_view(entries@)),
{
    Subtitles {
        entries,
        video_id: id.video_id,
        language: id.language,
        video_title: String::new(),
        uploader_id: String::new(),
        uploader_name: String::new(),
    }
}

fn finish(key: SubtitleId, operation: Operation, outcome: Outcome) -> (next: (Session, Action))
    ensures
        (next.0@, next.1@) == finished(
            SessionView { key: key@, operation: operation@, phase: PhaseView::Finished },
            outcome@,
        ),
{
    (Session { key, operation, phase: Phase::Finished }, Action::Finish(outcome))
}

fn fail(key: SubtitleId, operation: Operation, error: StoreError) -> (next: (Session, Action))
    ensures
        (next.0@, next.1@) == finished(
            SessionView { key: key@, operation: operation@, phase: PhaseView::Finished },
            OutcomeView::Failed(error@),
        ),
{
    finish(key, operation, Outcome::Failed(error))
}

fn serve(key: SubtitleId, operation: Operation, existing: Vec<Entry>) -> (next: (Session, Action))
    ensures
        (next.0@, next.1@) == served(
            SessionView { key: key@, operation: operation@, phase: PhaseView::Finished },
            entries_view(existing@),
        ),
{
    match &operation {
        Operation::Get => finish(key, operation, Outcome::Track(existing)),
        Operation::Update { entries, author } => {
            let changes = diff(existing.as_slice(), entries.as_slice());
            if changes.len() == 0 {
                finish(key, operation, Outcome::Updated)
            } else {
                (Session { key, operation, phase: Phase::Beginning(changes) }, Action::Begin)
            }
        },
        Operation::Export { format } => {
            let file = export_chunks(existing.as_slice(), *format);
            finish(key, operation, Outcome::File(file))
        },
    }
}

fn undo(key: SubtitleId, operation: Operation, event: Event) -> (next: (Session, Action))
    ensures
        (next.0@, next.1@) == undoing(
            SessionView { key: key@, operation: operation@, phase: PhaseView::Finished },
            interruption(event@),
        ),
{
    let error = match event {
        Event::Failed(failure) => classify(failure, Origin::Caller),
        _ => StoreError::Internal,
    };
    (Session { key, operation, phase: Phase::RollingBack(error) }, Action::Rollback)
}

impl Session {
    /// Begins an operation on the track under `key`. The first action of
    /// every operation is [`Action::Lookup`].
    pub fn begin(key: SubtitleId, operation: Operation) -> (start: (Session, Action))
        ensures
            start.0@ == begun(key@, operation@),
            start.1@ == ActionView::Lookup,
    {
        (Session { key, operation, phase: Phase::Looking }, Action::Lookup)
    }

    /// Whether the operation has ended.
    pub fn is_finished(&self) -> (done: bool)
        ensures
            done == (self@.phase == PhaseView::Finished),
    {
        match self.phase {
            Phase::Finished => true,
            _ => false,
        }
    }

    /// Takes what came of the last action and decides how to go on.
    pub fn step(self, event: Event) -> (next: (Session, Action))
        ensures
            (next.0@, next.1@) == step_spec(self@, event@),
    {
        let Session { key, operation, phase } = self;
        match phase {
            Phase::Looking => match event {
                Event::Found(Some(existing)) => serve(key, operation, existing),
                Event::Found(None) => (
                    Session { key, operation, phase: Phase::Scraping },
                    Action::Scrape,
                ),
                Event::Failed(failure) => {
                    let error = classify(failure, Origin::Store);
                    fail(key, operation, error)
                },
                _ => fail(key, operation, StoreError::Internal),
            },
            Phase::Scraping => match event {
                Event::Scraped(Some(entries)) => (
                    Session { key, operation, phase: Phase::Inserting },
                    Action::Insert(entries),
                ),
                Event::Scraped(None) => fail(key, operation, StoreError::NotFound),
                _ => fail(key, operation, StoreError::Internal),
            },
            Phase::Inserting => match event {
                Event::Inserted => (
                    Session { key, operation, phase: Phase::Rereading },
                    Action::Lookup,
                ),
                Event::Failed(StorageFault::UniqueViolation) => (
                    Session { key, operation, phase: Phase::Rereading },
                    Action::Lookup,
                ),
                Event::Failed(failure) => {
                    let error = classify(failure, Origin::Store);
                    fail(key, operation, error)
                },
                _ => fail(key, operation, StoreError::Internal),
            },
            Phase::Rereading => match event {
                Event::Found(Some(existing)) => serve(key, operation, existing),
                Event::Found(None) => fail(key, operation, StoreError::NotFound),
                Event::Failed(failure) => {
                    let error = classify(failure, Origin::Store);
                    fail(key, operation, error)
                },
                _ => fail(key, operation, StoreError::Internal),
            },
            Phase::Beginning(changes) => match event {
                Event::Begun => (
                    Session { key, operation, phase: Phase::Timing(changes) },
                    Action::ReadClock,
                ),
                Event::Failed(failure) => {
                    let error = classify(failure, Origin::Store);
                    fail(key, operation, error)
                },
                _ => fail(key, operation, StoreError::Internal),
            },
            Phase::Timing(changes) => match event {
                Event::Time(now) => match &operation {
                    Operation::Update { entries, author } => {
                        let record = ChangeRecord {
                            timestamp: now,
                            author: author.clone(),
                            changes,
                        };
                        (
                            Session { key, operation, phase: Phase::Logging },
                            Action::Append(record),
                        )
                    },
                    _ => undo(key, operation, Event::Time(now)),
                },
                other => undo(key, operation, other),
            },
            Phase::Logging => match event {
                Event::Appended => match &operation {
                    Operation::Update { entries, author } => {
                        let replacement = clone_entries(entries.as_slice());
                        (
                            Session { key, operation, phase: Phase::Overwriting },
                            Action::Overwrite(replacement),
                        )
                    },
                    _ => undo(key, operation, Event::Appended),
                },
                other => undo(key, operation, other),
            },
            Phase::Overwriting => match event {
                Event::Overwritten => (
                    Session { key, operation, phase: Phase::Committing },
                    Action::Commit,
                ),
                other => undo(key, operation, other),
            },
            Phase::Committing => match event {
                Event::Committed => finish(key, operation, Outcome::Updated),
                other => undo(key, operation, other),
            },
            Phase::RollingBack(error) => match event {
                Event::RolledBack => fail(key, operation, error),
                _ => fail(key, operation, StoreError::Inconsistent),
            },
            Phase::Finished => fail(key, operation, StoreError::Internal),
        }
    }
}

} // verus!
