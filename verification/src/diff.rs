//! Positional comparison of two versions of a track.
//!
//! The comparison is by position only: no alignment is attempted, so an
//! insertion in the middle shows up as a change at every later position.

use vstd::prelude::*;
use crate::entry::{Entry, EntryView, entries_view, optional_entry, same_slot};

verus! {

/// One position at which two versions of a track disagree.
///
/// `old` is absent where only the new version reaches that position, `new`
/// is absent where only the old one does.
#[derive(Debug, PartialEq, Eq)]
pub struct Difference {
    pub index: u32,
    pub old: Option<Entry>,
    pub new: Option<Entry>,
}

/// The mathematical value of a [`Difference`].
pub struct DifferenceView {
    pub index: int,
    pub old: Option<EntryView>,
    pub new: Option<EntryView>,
}

impl View for Difference {
    type V = DifferenceView;

    open spec fn view(&self) -> DifferenceView {
        DifferenceView {
            index: self.index as int,
            old: optional_entry(self.old),
            new: optional_entry(self.new),
        }
    }
}

impl Clone for Difference {
    fn clone(&self) -> (copy: Self)
        ensures
            copy == *self,
    {
        Difference { index: self.index, old: self.old.clone(), new: self.new.clone() }
    }
}

/// The values of a sequence of differences, position by position.
pub open spec fn differences_view(differences: Seq<Difference>) -> Seq<DifferenceView> {
    differences.map_values(|d: Difference| d@)
}

/// What a version holds at position `i`: the entry there, or nothing past its end.
pub open spec fn slot_at(entries: Seq<EntryView>, i: int) -> Option<EntryView> {
    if 0 <= i < entries.len() {
        Some(entries[i])
    } else {
        None
    }
}

/// The number of positions that at least one of the two versions reaches.
pub open spec fn span(old: Seq<EntryView>, new: Seq<EntryView>) -> nat {
    if old.len() >= new.len() {
        old.len()
    } else {
        new.len()
    }
}

/// Both versions side by side, one pairing per position, equal or not.
pub open spec fn pairings(old: Seq<EntryView>, new: Seq<EntryView>) -> Seq<DifferenceView> {
    Seq::new(
        span(old, new),
        |i: int| DifferenceView { index: i, old: slot_at(old, i), new: slot_at(new, i) },
    )
}

/// Whether a pairing records a disagreement.
pub open spec fn disagrees(d: DifferenceView) -> bool {
    d.old != d.new
}

/// The positional difference: the pairings that disagree, by ascending position.
pub open spec fn diff_spec(old: Seq<EntryView>, new: Seq<EntryView>) -> Seq<DifferenceView> {
    pairings(old, new).filter(|d: DifferenceView| disagrees(d))
}

/// The index under which a position is recorded. Positions count on
/// without end; the recorded index has 32 bits, so it is the position up to
/// 4 294 967 295 and starts again at 0 after it.
pub open spec fn recorded_index(position: int) -> int {
    position % 0x1_0000_0000
}

/// A difference as it is recorded: under the recorded index of its position.
pub open spec fn recorded(d: DifferenceView) -> DifferenceView {
    DifferenceView { index: recorded_index(d.index), old: d.old, new: d.new }
}

/// The positional difference as it is recorded.
pub open spec fn recorded_diff(old: Seq<EntryView>, new: Seq<EntryView>) -> Seq<DifferenceView> {
    diff_spec(old, new).map_values(|d: DifferenceView| recorded(d))
}

/// Computes the positional difference between two versions of a track.
pub fn diff(old: &[Entry], new: &[Entry]) -> (changes: Vec<Difference>)
    ensures
        differences_view(changes@) == recorded_diff(entries_view(old@), entries_view(new@)),
{
    let len: usize = if old.len() >= new.len() { old.len() } else { new.len() };
    let ghost old_v = entries_view(old@);
    let ghost new_v = entries_view(new@);
    let ghost all = pairings(old_v, new_v);
    let ghost pred = |d: DifferenceView| disagrees(d);
    let ghost rec = |d: DifferenceView| recorded(d);
    let mut changes: Vec<Difference> = Vec::new();
    let mut i: usize = 0;
    proof {
        reveal(Seq::filter);
        assert(all.take(0).filter(pred) =~= Seq::<DifferenceView>::empty());
        assert(differences_view(changes@) =~= all.take(0).filter(pred).map_values(rec));
    }
    while i < len
        invariant
            i <= len,
            len == span(old_v, new_v),
            old_v == entries_view(old@),
            new_v == entries_view(new@),
            all == pairings(old_v, new_v),
            pred == (|d: DifferenceView| disagrees(d)),
            rec == (|d: DifferenceView| recorded(d)),
            differences_view(changes@) == all.take(i as int).filter(pred).map_values(rec),
        decreases len - i,
    {
        let old_slot: Option<&Entry> = if i < old.len() { Some(&old[i]) } else { None };
        let new_slot: Option<&Entry> = if i < new.len() { Some(&new[i]) } else { None };
        proof {
            reveal(Seq::filter);
            assert(all.take(i + 1).drop_last() =~= all.take(i as int));
            assert(all.take(i + 1).last() == all[i as int]);
        }
        if !same_slot(old_slot, new_slot) {
            let ghost before = changes@;
            let ghost found = all.take(i as int).filter(pred);
            let d = Difference {
                index: ((i as u64) % 0x1_0000_0000u64) as u32,
                old: match old_slot { Some(e) => Some(e.clone()), None => None },
                new: match new_slot { Some(e) => Some(e.clone()), None => None },
            };
            changes.push(d);
            assert(d@ == recorded(all[i as int]));
            assert(differences_view(changes@) =~= differences_view(before).push(d@));
            assert(found.push(all[i as int]).map_values(rec) =~= found.map_values(rec).push(
                recorded(all[i as int]),
            ));
        }
        i += 1;
    }
    assert(all.take(len as int) =~= all);
    changes
}

/// Whether position `i` of the comparison shows up in `changes`.
pub open spec fn reports(changes: Seq<DifferenceView>, i: int) -> bool {
    exists|k: int| 0 <= k < changes.len() && #[trigger] changes[k].index == i
}

/// What the disagreeing pairings among the first `n` positions look like:
/// each is the pairing of its own position, positions ascend, and no
/// disagreeing position is left out.
proof fn lemma_diff_prefix(old: Seq<EntryView>, new: Seq<EntryView>, n: int)
    requires
        0 <= n <= span(old, new),
    ensures
        ({
            let all = pairings(old, new);
            let found = all.take(n).filter(|d: DifferenceView| disagrees(d));
            &&& forall|k: int|
                0 <= k < found.len() ==> 0 <= (#[trigger] found[k]).index < n && found[k]
                    == all[found[k].index] && disagrees(found[k])
            &&& forall|j: int, k: int|
                0 <= j < k < found.len() ==> (#[trigger] found[j]).index < (
                #[trigger] found[k]).index
            &&& forall|i: int| 0 <= i < n && disagrees(#[trigger] all[i]) ==> reports(found, i)
        }),
    decreases n,
{
    reveal(Seq::filter);
    let all = pairings(old, new);
    let pred = |d: DifferenceView| disagrees(d);
    let found = all.take(n).filter(pred);
    if n > 0 {
        lemma_diff_prefix(old, new, n - 1);
        let before = all.take(n - 1).filter(pred);
        assert(all.take(n).drop_last() =~= all.take(n - 1));
        assert(all.take(n).last() == all[n - 1]);
        if disagrees(all[n - 1]) {
            assert(found == before.push(all[n - 1]));
            assert(found[found.len() - 1].index == n - 1);
        } else {
            assert(found == before);
        }
        assert forall|i: int| 0 <= i < n && disagrees(#[trigger] all[i]) implies reports(
            found,
            i,
        ) by {
            if i < n - 1 {
                let k = choose|k: int| 0 <= k < before.len() && #[trigger] before[k].index == i;
                assert(found[k].index == i);
            }
        }
    }
}

/// What a difference holds, whatever the two versions are: every change is
/// the pairing of its own position and records a disagreement, the changes
/// are in ascending order of position, and a position at which the versions
/// disagree is reported.
pub proof fn diff_lists_disagreements(old: Seq<EntryView>, new: Seq<EntryView>)
    ensures
        ({
            let changes = diff_spec(old, new);
            &&& forall|k: int|
                0 <= k < changes.len() ==> {
                    let i = (#[trigger] changes[k]).index;
                    &&& 0 <= i < span(old, new)
                    &&& changes[k].old == slot_at(old, i)
                    &&& changes[k].new == slot_at(new, i)
                    &&& slot_at(old, i) != slot_at(new, i)
                }
            &&& forall|j: int, k: int|
                0 <= j < k < changes.len() ==> (#[trigger] changes[j]).index < (
                #[trigger] changes[k]).index
            &&& forall|i: int|
                0 <= i < span(old, new) && slot_at(old, i) != slot_at(new, i) ==> #[trigger] reports(
                    changes,
                    i,
                )
        }),
{
    let all = pairings(old, new);
    lemma_diff_prefix(old, new, span(old, new) as int);
    assert(all.take(span(old, new) as int) =~= all);
    let changes = diff_spec(old, new);
    assert forall|i: int|
        0 <= i < span(old, new) && slot_at(old, i) != slot_at(new, i) implies #[trigger] reports(
        changes,
        i,
    ) by {
        assert(disagrees(all[i]));
    }
}

/// Where the versions reach no further than the recorded index counts, a
/// difference is recorded as it is: every index is the position itself.
pub proof fn recorded_diff_is_exact(old: Seq<EntryView>, new: Seq<EntryView>)
    requires
        span(old, new) <= 0x1_0000_0000,
    ensures
        recorded_diff(old, new) == diff_spec(old, new),
{
    diff_lists_disagreements(old, new);
    let changes = diff_spec(old, new);
    assert forall|k: int| 0 <= k < changes.len() implies recorded(#[trigger] changes[k])
        == changes[k] by {
        let i = changes[k].index;
        assert(0 <= i < 0x1_0000_0000);
    }
    assert(recorded_diff(old, new) =~= changes);
}

/// A version compared with itself has no differences, and none is
/// recorded.
pub proof fn diff_of_equal_versions_is_empty(a: Seq<EntryView>)
    ensures
        diff_spec(a, a) == Seq::<DifferenceView>::empty(),
        recorded_diff(a, a) == Seq::<DifferenceView>::empty(),
{
    diff_lists_disagreements(a, a);
    let changes = diff_spec(a, a);
    if changes.len() > 0 {
        assert(changes[0].old == changes[0].new);
    }
    assert(changes =~= Seq::<DifferenceView>::empty());
    assert(recorded_diff(a, a) =~= Seq::<DifferenceView>::empty());
}

/// For two versions of equal length the difference reports exactly the
/// positions at which the entries differ, each once, with the old entry and
/// the new entry of that position.
pub proof fn diff_of_equal_length_versions(a: Seq<EntryView>, b: Seq<EntryView>)
    requires
        a.len() == b.len(),
    ensures
        forall|i: int| 0 <= i < a.len() ==> (#[trigger] reports(diff_spec(a, b), i) <==> a[i] != b[i]),
        forall|k: int|
            0 <= k < diff_spec(a, b).len() ==> {
                let i = (#[trigger] diff_spec(a, b)[k]).index;
                &&& 0 <= i < a.len()
                &&& diff_spec(a, b)[k].old == Some(a[i])
                &&& diff_spec(a, b)[k].new == Some(b[i])
            },
        forall|j: int, k: int|
            0 <= j < k < diff_spec(a, b).len() ==> (#[trigger] diff_spec(a, b)[j]).index < (
            #[trigger] diff_spec(a, b)[k]).index,
{
    diff_lists_disagreements(a, b);
    let changes = diff_spec(a, b);
    assert forall|i: int| 0 <= i < a.len() implies (#[trigger] reports(changes, i) <==> a[i]
        != b[i]) by {
        if reports(changes, i) {
            let k = choose|k: int| 0 <= k < changes.len() && #[trigger] changes[k].index == i;
            assert(slot_at(a, i) != slot_at(b, i));
        }
        if a[i] != b[i] {
            assert(slot_at(a, i) != slot_at(b, i));
        }
    }
}

/// For two versions of equal length that the recorded index can count, the
/// difference as it is recorded holds, for each change, the old and the new
/// entry of the position that its index gives, and the two differ.
pub proof fn recorded_diff_of_equal_length_versions(a: Seq<EntryView>, b: Seq<EntryView>)
    requires
        a.len() == b.len(),
        a.len() <= 0x1_0000_0000,
    ensures
        forall|k: int|
            0 <= k < recorded_diff(a, b).len() ==> {
                let i = (#[trigger] recorded_diff(a, b)[k]).index;
                &&& 0 <= i < a.len()
                &&& recorded_diff(a, b)[k].old == Some(a[i])
                &&& recorded_diff(a, b)[k].new == Some(b[i])
                &&& a[i] != b[i]
            },
{
    recorded_diff_is_exact(a, b);
    diff_lists_disagreements(a, b);
}

/// Where the versions differ in length, every position past the end of the
/// shorter one is reported, with the entry of the longer version on its side
/// and nothing on the other.
pub proof fn diff_reaches_past_shorter_version(a: Seq<EntryView>, b: Seq<EntryView>)
    ensures
        forall|i: int|
            a.len() <= i < b.len() ==> diff_spec(a, b).contains(
                DifferenceView { index: i, old: None, new: Some(#[trigger] b[i]) },
            ),
        forall|i: int|
            b.len() <= i < a.len() ==> diff_spec(a, b).contains(
                DifferenceView { index: i, old: Some(#[trigger] a[i]), new: None },
            ),
{
    diff_lists_disagreements(a, b);
    let changes = diff_spec(a, b);
    assert forall|i: int| a.len() <= i < b.len() implies changes.contains(
        DifferenceView { index: i, old: None, new: Some(#[trigger] b[i]) },
    ) by {
        assert(slot_at(a, i) != slot_at(b, i));
        assert(reports(changes, i));
        let k = choose|k: int| 0 <= k < changes.len() && #[trigger] changes[k].index == i;
        assert(changes[k] == (DifferenceView { index: i, old: None, new: Some(b[i]) }));
    }
    assert forall|i: int| b.len() <= i < a.len() implies changes.contains(
        DifferenceView { index: i, old: Some(#[trigger] a[i]), new: None },
    ) by {
        assert(slot_at(a, i) != slot_at(b, i));
        assert(reports(changes, i));
        let k = choose|k: int| 0 <= k < changes.len() && #[trigger] changes[k].index == i;
        assert(changes[k] == (DifferenceView { index: i, old: Some(a[i]), new: None }));
    }
}

} // verus!
