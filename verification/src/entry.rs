//! The timed caption line, the unit every other module works on.

use vstd::prelude::*;

verus! {

/// One caption line and the interval during which it is shown.
///
/// Times are whole milliseconds from the start of the video.
#[derive(Debug, PartialEq, Eq)]
pub struct Entry {
    pub start_millis: i64,
    pub end_millis: i64,
    pub text: String,
}

/// The mathematical value of an [`Entry`].
pub struct EntryView {
    pub start_millis: int,
    pub end_millis: int,
    pub text: Seq<char>,
}

impl View for Entry {
    type V = EntryView;

    open spec fn view(&self) -> EntryView {
        EntryView {
            start_millis: self.start_millis as int,
            end_millis: self.end_millis as int,
            text: self.text@,
        }
    }
}

impl Clone for Entry {
    fn clone(&self) -> (copy: Self)
        ensures
            copy == *self,
    {
        Entry {
            start_millis: self.start_millis,
            end_millis: self.end_millis,
            text: self.text.clone(),
        }
    }
}

/// The values of a sequence of entries, position by position.
pub open spec fn entries_view(entries: Seq<Entry>) -> Seq<EntryView> {
    entries.map_values(|e: Entry| e@)
}

/// The value of an optional entry.
pub open spec fn optional_entry(entry: Option<Entry>) -> Option<EntryView> {
    match entry {
        Some(e) => Some(e@),
        None => None,
    }
}

/// The values of an optional list of entries.
pub open spec fn optional_entries(entries: Option<Vec<Entry>>) -> Option<Seq<EntryView>> {
    match entries {
        Some(list) => Some(entries_view(list@)),
        None => None,
    }
}

impl Entry {
    pub fn new(start_millis: i64, end_millis: i64, text: String) -> (entry: Entry)
        ensures
            entry@ == (EntryView {
                start_millis: start_millis as int,
                end_millis: end_millis as int,
                text: text@,
            }),
    {
        Entry { start_millis, end_millis, text }
    }

    /// Full structural equality: both times and the text agree.
    pub fn same(&self, other: &Entry) -> (equal: bool)
        ensures
            equal == (self@ == other@),
    {
        self.start_millis == other.start_millis && self.end_millis == other.end_millis
            && self.text == other.text
    }
}

/// Whether two optional entries agree: both absent, or both present and equal.
pub fn same_slot(a: Option<&Entry>, b: Option<&Entry>) -> (equal: bool)
    ensures
        equal == (slot_view(a) == slot_view(b)),
{
    match (a, b) {
        (None, None) => true,
        (Some(x), Some(y)) => x.same(y),
        _ => false,
    }
}

/// The value of an optional entry.
pub open spec fn slot_view(slot: Option<&Entry>) -> Option<EntryView> {
    match slot {
        Some(e) => Some(e@),
        None => None,
    }
}

/// Copies a slice of entries into a vector of its own.
pub fn clone_entries(entries: &[Entry]) -> (copy: Vec<Entry>)
    ensures
        copy@ == entries@,
{
    let mut copy: Vec<Entry> = Vec::new();
    let mut i: usize = 0;
    while i < entries.len()
        invariant
            i <= entries.len(),
            copy@ == entries@.take(i as int),
        decreases entries.len() - i,
    {
        copy.push(entries[i].clone());
        assert(entries@.take(i + 1) =~= entries@.take(i as int).push(entries@[i as int]));
        i += 1;
    }
    assert(entries@.take(entries.len() as int) =~= entries@);
    copy
}

} // verus!
