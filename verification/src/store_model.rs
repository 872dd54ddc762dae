//! The store's operations run against a record store: a model of the
//! records and of their transaction, of how a store answers each action,
//! whether it works or fails, and what holds of whole operations then.

use vstd::prelude::*;
use crate::diff::{
    diff_lists_disagreements, diff_of_equal_versions_is_empty, diff_spec, recorded_diff, reports,
    slot_at, span,
};
use crate::entry::EntryView;
use crate::status::{StorageFaultView, StoreErrorView};
use crate::store::{
    ActionView, ChangeRecordView, EventView, KeyView, OperationView, OutcomeView, SessionView,
    begun, step_spec,
};

verus! {

/// What a record store held when a transaction began.
pub struct Snapshot {
    pub tracks: Map<KeyView, Seq<EntryView>>,
    pub changes: Seq<ChangeRecordView>,
}

/// What a record store holds: at most one track for each key, the change
/// log, and, while a transaction is open, what it held when the transaction
/// began.
pub struct Records {
    pub tracks: Map<KeyView, Seq<EntryView>>,
    pub changes: Seq<ChangeRecordView>,
    pub saved: Option<Snapshot>,
}

/// What the world outside the session gives during one operation: the
/// scraper's answer for the track, the reading of the clock, and the faults
/// of the record store. The actions of a session are counted from 0; the
/// store fails at the action with number `n` where `faults` holds `n`, with
/// the fault that stands there.
pub struct Surroundings {
    pub scraped: Option<Seq<EntryView>>,
    pub now: int,
    pub faults: Map<nat, StorageFaultView>,
}

/// Whether the record store works all through the operation.
pub open spec fn works(around: Surroundings) -> bool {
    forall|n: nat| !around.faults.dom().contains(n)
}

/// Whether the action is one that the record store carries out.
pub open spec fn asks_the_store(action: ActionView) -> bool {
    !(action is Scrape || action is ReadClock || action is Finish)
}

/// How a record store answers an action on the track under `key` where it
/// does not fail, and what it holds afterwards. An insert under a key that
/// is taken is refused and changes nothing. To begin a transaction is to
/// save what the store holds; to commit is to drop what was saved; to roll
/// back is to hold again what was saved. A session that has finished asks
/// for nothing more, so the answer to its last action is of no account.
pub open spec fn carried_out(
    records: Records,
    key: KeyView,
    action: ActionView,
    around: Surroundings,
) -> (Records, EventView) {
    match action {
        ActionView::Lookup => (
            records,
            EventView::Found(
                if records.tracks.dom().contains(key) {
                    Some(records.tracks[key])
                } else {
                    None
                },
            ),
        ),
        ActionView::Scrape => (records, EventView::Scraped(around.scraped)),
        ActionView::Insert(entries) => if records.tracks.dom().contains(key) {
            (records, EventView::Failed(StorageFaultView::UniqueViolation))
        } else {
            (Records { tracks: records.tracks.insert(key, entries), ..records }, EventView::Inserted)
        },
        ActionView::Begin => (
            Records {
                saved: Some(Snapshot { tracks: records.tracks, changes: records.changes }),
                ..records
            },
            EventView::Begun,
        ),
        ActionView::ReadClock => (records, EventView::Time(around.now)),
        ActionView::Append(record) => (
            Records { changes: records.changes.push(record), ..records },
            EventView::Appended,
        ),
        ActionView::Overwrite(entries) => (
            Records { tracks: records.tracks.insert(key, entries), ..records },
            EventView::Overwritten,
        ),
        ActionView::Commit => (Records { saved: None, ..records }, EventView::Committed),
        ActionView::Rollback => (
            match records.saved {
                Some(before) => Records {
                    tracks: before.tracks,
                    changes: before.changes,
                    saved: None,
                },
                None => records,
            },
            EventView::RolledBack,
        ),
        ActionView::Finish(_) => (records, EventView::Inserted),
    }
}

/// How a record store answers the action with number `done`, and what it
/// holds afterwards. Where the store fails at the action, it reports the
/// fault and holds what it held.
pub open spec fn answered(
    records: Records,
    key: KeyView,
    action: ActionView,
    around: Surroundings,
    done: nat,
) -> (Records, EventView) {
    if asks_the_store(action) && around.faults.dom().contains(done) {
        (records, EventView::Failed(around.faults[done]))
    } else {
        carried_out(records, key, action, around)
    }
}

/// The outcome of a session that is run to its end against a record store,
/// and what the store holds then. `done` is the number of actions so far;
/// `patience` bounds the number of actions to come, and a session that
/// needs more ends with an internal error.
pub open spec fn completed(
    session: SessionView,
    action: ActionView,
    records: Records,
    around: Surroundings,
    done: nat,
    patience: nat,
) -> (OutcomeView, Records)
    decreases patience,
{
    match action {
        ActionView::Finish(outcome) => (outcome, records),
        _ => if patience == 0 {
            (OutcomeView::Failed(StoreErrorView::Internal), records)
        } else {
            let (held, event) = answered(records, session.key, action, around, done);
            let (next, then) = step_spec(session, event);
            completed(next, then, held, around, done + 1, (patience - 1) as nat)
        },
    }
}

/// The outcome of an operation against a record store, and what the store
/// holds then. No operation takes more than ten actions.
pub open spec fn performed(
    key: KeyView,
    operation: OperationView,
    records: Records,
    around: Surroundings,
) -> (OutcomeView, Records) {
    completed(begun(key, operation), ActionView::Lookup, records, around, 0, 12)
}

/// Twelve actions are enough for every operation, whatever fails: more
/// patience changes neither the outcome nor what the store holds.
pub proof fn operations_end_in_time(
    key: KeyView,
    operation: OperationView,
    records: Records,
    around: Surroundings,
    patience: nat,
)
    requires
        patience >= 12,
    ensures
        completed(begun(key, operation), ActionView::Lookup, records, around, 0, patience)
            == performed(key, operation, records, around),
{
    reveal_with_fuel(completed, 13);
}

/// The records once the track under `key` is there: as they are where it
/// is, and with the scraped track stored where it is not.
pub open spec fn materialized(records: Records, key: KeyView, around: Surroundings) -> Records {
    if records.tracks.dom().contains(key) {
        records
    } else {
        match around.scraped {
            Some(entries) => Records { tracks: records.tracks.insert(key, entries), ..records },
            None => records,
        }
    }
}

/// No operation touches another track or takes anything out of the change
/// log, whatever fails: what the store held under other keys it holds
/// still, the track of the operation is still there if it was, and the
/// change log has its old records in their old places, with at most one
/// more behind them. A get and an export leave the change log as it is.
pub proof fn operations_only_add(
    key: KeyView,
    operation: OperationView,
    records: Records,
    around: Surroundings,
)
    ensures
        ({
            let held = performed(key, operation, records, around).1;
            &&& forall|other: KeyView|
                other != key ==> (held.tracks.dom().contains(other)
                    <==> #[trigger] records.tracks.dom().contains(other))
            &&& forall|other: KeyView|
                other != key && #[trigger] records.tracks.dom().contains(other)
                    ==> held.tracks[other] == records.tracks[other]
            &&& records.tracks.dom().contains(key) ==> held.tracks.dom().contains(key)
            &&& records.changes.len() <= held.changes.len() <= records.changes.len() + 1
            &&& held.changes.take(records.changes.len() as int) == records.changes
            &&& !(operation is Update) ==> held.changes == records.changes
        }),
{
    reveal_with_fuel(completed, 13);
    let held = performed(key, operation, records, around).1;
    assert(held.changes.take(records.changes.len() as int) =~= records.changes);
}

/// Two versions without a difference are the same version.
pub proof fn no_difference_means_equal(a: Seq<EntryView>, b: Seq<EntryView>)
    requires
        diff_spec(a, b).len() == 0,
    ensures
        a == b,
{
    diff_lists_disagreements(a, b);
    assert forall|i: int| 0 <= i < span(a, b) implies slot_at(a, i) == slot_at(b, i) by {
        if slot_at(a, i) != slot_at(b, i) {
            assert(reports(diff_spec(a, b), i));
        }
    }
    if a.len() != b.len() {
        let i = if a.len() < b.len() { a.len() as int } else { b.len() as int };
        assert(slot_at(a, i) == slot_at(b, i));
    }
    assert forall|i: int| 0 <= i < a.len() implies a[i] == b[i] by {
        assert(slot_at(a, i) == slot_at(b, i));
    }
    assert(a =~= b);
}

/// A get for a track that does not exist yet, with a scraper that answers
/// with a track and a record store that works, stores that track under the
/// key, changes nothing else, and returns it. A get that follows returns
/// the same track, whatever the scraper would answer then, and changes
/// nothing.
pub proof fn get_or_create_materializes_once(
    records: Records,
    key: KeyView,
    scraped: Seq<EntryView>,
    around: Surroundings,
    later: Surroundings,
)
    requires
        !records.tracks.dom().contains(key),
        around.scraped == Some(scraped),
        works(around),
        works(later),
    ensures
        ({
            let (outcome, held) = performed(key, OperationView::Get, records, around);
            &&& outcome == OutcomeView::Track(scraped)
            &&& held.tracks == records.tracks.insert(key, scraped)
            &&& held.changes == records.changes
            &&& performed(key, OperationView::Get, held, later) == (outcome, held)
        }),
{
    reveal_with_fuel(completed, 6);
}

/// With a record store that works, an update of a track that is there, or
/// that the scraper can make, is accepted, however long the versions are.
pub proof fn update_is_accepted(
    records: Records,
    key: KeyView,
    entries: Seq<EntryView>,
    author: Seq<char>,
    around: Surroundings,
)
    requires
        works(around),
        materialized(records, key, around).tracks.dom().contains(key),
    ensures
        performed(key, OperationView::Update { entries, author }, records, around).0
            == OutcomeView::Updated,
{
    reveal_with_fuel(completed, 13);
}

/// What an update does to a record store, where it is accepted: the track
/// then holds the new entries; the change log has grown by one record, with
/// the author, the time and the difference as it is recorded, exactly where
/// the new entries differ from what the track held before; nothing else
/// changes.
pub proof fn update_records_a_change_once(
    records: Records,
    key: KeyView,
    entries: Seq<EntryView>,
    author: Seq<char>,
    around: Surroundings,
)
    requires
        performed(key, OperationView::Update { entries, author }, records, around).0
            == OutcomeView::Updated,
    ensures
        ({
            let held = performed(key, OperationView::Update { entries, author }, records, around).1;
            let before = materialized(records, key, around);
            &&& before.tracks.dom().contains(key)
            &&& held.tracks == before.tracks.insert(key, entries)
            &&& before.tracks[key] == entries ==> held.changes == before.changes
            &&& before.tracks[key] != entries ==> held.changes == before.changes.push(
                ChangeRecordView {
                    timestamp: around.now,
                    author,
                    changes: recorded_diff(before.tracks[key], entries),
                },
            )
        }),
{
    reveal_with_fuel(completed, 13);
    let before = materialized(records, key, around);
    if before.tracks.dom().contains(key) {
        let existing = before.tracks[key];
        diff_of_equal_versions_is_empty(entries);
        if recorded_diff(existing, entries).len() == 0 {
            no_difference_means_equal(existing, entries);
            assert(before.tracks.insert(key, entries) =~= before.tracks);
        }
    }
}

/// An update is idempotent: where an update was accepted, the same update
/// made once more, with a record store that works, is accepted too, finds
/// nothing to change, and leaves the track and the change log as they are,
/// whatever the scraper and the clock give then.
pub proof fn update_is_idempotent(
    records: Records,
    key: KeyView,
    entries: Seq<EntryView>,
    author: Seq<char>,
    around: Surroundings,
    later: Surroundings,
)
    requires
        performed(key, OperationView::Update { entries, author }, records, around).0
            == OutcomeView::Updated,
        works(later),
    ensures
        ({
            let held = performed(key, OperationView::Update { entries, author }, records, around).1;
            performed(key, OperationView::Update { entries, author }, held, later) == (
                OutcomeView::Updated,
                held,
            )
        }),
{
    update_records_a_change_once(records, key, entries, author, around);
    let held = performed(key, OperationView::Update { entries, author }, records, around).1;
    assert(held.tracks.dom().contains(key));
    assert(held.tracks[key] == entries);
    diff_of_equal_versions_is_empty(entries);
    reveal_with_fuel(completed, 3);
}

/// An update is all or nothing, whatever fails and wherever: unless it ends
/// with [`StoreErrorView::Inconsistent`], an update that fails leaves the
/// change log as it was and the track as it was, or as the scraper made it
/// where there was none. So a change is never recorded without the track
/// being replaced, nor the track replaced without the change being
/// recorded. An update ends with `Inconsistent` only where the record store
/// fails.
pub proof fn update_is_all_or_nothing(
    records: Records,
    key: KeyView,
    entries: Seq<EntryView>,
    author: Seq<char>,
    around: Surroundings,
)
    ensures
        ({
            let (outcome, held) = performed(
                key,
                OperationView::Update { entries, author },
                records,
                around,
            );
            &&& outcome == OutcomeView::Updated || outcome is Failed
            &&& outcome is Failed && outcome != OutcomeView::Failed(StoreErrorView::Inconsistent)
                ==> {
                &&& held.changes == records.changes
                &&& held.tracks == records.tracks || held.tracks == materialized(
                    records,
                    key,
                    around,
                ).tracks
            }
            &&& outcome == OutcomeView::Failed(StoreErrorView::Inconsistent) ==> !works(around)
        }),
{
    reveal_with_fuel(completed, 13);
}

} // verus!
