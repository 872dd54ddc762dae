//! Export of a track as a subtitle file, handed out in chunks.

use vstd::prelude::*;
use vstd::pervasive::unreached;
use crate::bridge::{captions_view, srt_data, srt_file_data};
use crate::entry::{Entry, EntryView, entries_view};

verus! {

/// The size of the chunks in which an exported file is handed out.
pub const CHUNK_SIZE: usize = 1024;

/// The file formats a track can be exported to.
#[derive(Debug, Clone, Copy, PartialEq, Eq, Structural)]
pub enum Format {
    /// SubRip: numbered caption blocks, each with its interval and text.
    Srt,
}

impl Format {
    /// The format with the given number on the wire, if there is one.
    pub fn from_i32(value: i32) -> (format: Option<Format>)
        ensures
            value == 0 ==> format == Some(Format::Srt),
            value != 0 ==> format is None,
    {
        if value == 0 {
            Some(Format::Srt)
        } else {
            None
        }
    }

    /// The number of the format on the wire.
    pub fn to_i32(self) -> (value: i32)
        ensures
            value == 0,
    {
        match self {
            Format::Srt => 0,
        }
    }
}

/// One piece of an exported file.
#[derive(Debug, PartialEq, Eq)]
pub struct Chunk {
    pub content: Vec<u8>,
}

/// The captions that a list of entries shows, each as start, end and text.
pub open spec fn captions_of_entries(entries: Seq<EntryView>) -> Seq<(int, int, Seq<char>)> {
    entries.map_values(|e: EntryView| (e.start_millis, e.end_millis, e.text))
}

/// The bytes of the file that a track is exported to in a format.
pub open spec fn exported(entries: Seq<EntryView>, format: Format) -> Seq<u8> {
    match format {
        Format::Srt => srt_data(captions_of_entries(entries)),
    }
}

/// The captions of a list of entries, each as start, end and text.
pub fn captions(entries: &[Entry]) -> (out: Vec<(i64, i64, String)>)
    ensures
        captions_view(out@) == captions_of_entries(entries_view(entries@)),
{
    let mut out: Vec<(i64, i64, String)> = Vec::new();
    let mut i: usize = 0;
    while i < entries.len()
        invariant
            i <= entries.len(),
            out.len() == i,
            forall|k: int|
                0 <= k < i ==> (#[trigger] out@[k]).0 == entries@[k].start_millis && out@[k].1
                    == entries@[k].end_millis && out@[k].2@ == entries@[k].text@,
        decreases entries.len() - i,
    {
        out.push((entries[i].start_millis, entries[i].end_millis, entries[i].text.clone()));
        i += 1;
    }
    assert(captions_view(out@) =~= captions_of_entries(entries_view(entries@)));
    out
}

/// Writes a track as a file in the given format.
pub fn export(entries: &[Entry], format: Format) -> (file: Vec<u8>)
    ensures
        file@ == exported(entries_view(entries@), format),
{
    match format {
        Format::Srt => {
            let lines = captions(entries);
            match srt_file_data(&lines) {
                Ok(bytes) => bytes,
                Err(_) => unreached(),
            }
        },
    }
}

/// The data cut into pieces of `size` bytes, in order; the last piece holds
/// what remains and may be shorter. Empty data has no pieces.
pub open spec fn chunked(data: Seq<u8>, size: int) -> Seq<Seq<u8>>
    decreases data.len(),
{
    if size <= 0 || data.len() == 0 {
        Seq::empty()
    } else if data.len() <= size {
        seq![data]
    } else {
        seq![data.take(size)] + chunked(data.skip(size), size)
    }
}

/// The chunks of some data, put together again, are the data; every chunk
/// but the last holds exactly `size` bytes, and the last holds at least one
/// byte and at most `size`.
pub proof fn chunked_data_rejoins(data: Seq<u8>, size: int)
    requires
        size > 0,
    ensures
        chunked(data, size).flatten() == data,
        forall|k: int|
            0 <= k < chunked(data, size).len() - 1 ==> (#[trigger] chunked(data, size)[k]).len()
                == size,
        chunked(data, size).len() > 0 ==> 0 < chunked(data, size).last().len() <= size,
        data.len() > 0 ==> chunked(data, size).len() > 0,
    decreases data.len(),
{
    let parts = chunked(data, size);
    if data.len() == 0 {
        assert(parts.flatten() =~= data);
    } else if data.len() <= size {
        parts.lemma_flatten_one_element();
    } else {
        let rest = chunked(data.skip(size), size);
        chunked_data_rejoins(data.skip(size), size);
        assert(parts.drop_first() =~= rest);
        assert(parts.first() == data.take(size));
        assert(parts.flatten() =~= data.take(size) + rest.flatten());
        assert(data.take(size) + data.skip(size) =~= data);
        assert forall|k: int| 0 <= k < parts.len() - 1 implies (#[trigger] parts[k]).len()
            == size by {
            if k > 0 {
                assert(parts[k] == rest[k - 1]);
            }
        }
        assert(parts.last() == rest.last());
    }
}

/// The contents of a list of chunks.
pub open spec fn chunks_view(chunks: Seq<Chunk>) -> Seq<Seq<u8>> {
    chunks.map_values(|c: Chunk| c.content@)
}

/// Cuts data into chunks of `size` bytes.
pub fn chunks(data: &[u8], size: usize) -> (out: Vec<Chunk>)
    requires
        size > 0,
    ensures
        chunks_view(out@) == chunked(data@, size as int),
{
    let n = data.len();
    let mut out: Vec<Chunk> = Vec::new();
    let mut start: usize = 0;
    assert(data@.skip(0) =~= data@);
    assert(chunks_view(out@) =~= Seq::<Seq<u8>>::empty());
    while start < n
        invariant
            size > 0,
            n == data.len(),
            start <= n,
            chunked(data@, size as int) == chunks_view(out@) + chunked(
                data@.skip(start as int),
                size as int,
            ),
        decreases n - start,
    {
        let end: usize = if n - start <= size { n } else { start + size };
        let mut content: Vec<u8> = Vec::new();
        let mut i: usize = start;
        while i < end
            invariant
                start <= i <= end <= n,
                n == data.len(),
                content@ == data@.subrange(start as int, i as int),
            decreases end - i,
        {
            content.push(data[i]);
            assert(data@.subrange(start as int, i + 1) =~= data@.subrange(
                start as int,
                i as int,
            ).push(data@[i as int]));
            i += 1;
        }
        let ghost before = out@;
        let ghost rest = data@.skip(start as int);
        proof {
            if n - start <= size {
                assert(content@ =~= rest);
                assert(data@.skip(end as int).len() == 0);
                assert(chunked(rest, size as int) =~= seq![content@] + chunked(
                    data@.skip(end as int),
                    size as int,
                ));
            } else {
                assert(content@ =~= rest.take(size as int));
                assert(rest.skip(size as int) =~= data@.skip(end as int));
            }
        }
        out.push(Chunk { content });
        assert(chunks_view(out@) =~= chunks_view(before).push(content@));
        assert(chunks_view(before) + (seq![content@] + chunked(
            data@.skip(end as int),
            size as int,
        )) =~= chunks_view(before).push(content@) + chunked(data@.skip(end as int), size as int));
        start = end;
    }
    assert(chunks_view(out@) + Seq::<Seq<u8>>::empty() =~= chunks_view(out@));
    out
}

/// Exports a track and cuts the file into chunks of [`CHUNK_SIZE`] bytes.
pub fn export_chunks(entries: &[Entry], format: Format) -> (out: Vec<Chunk>)
    ensures
        chunks_view(out@) == chunked(exported(entries_view(entries@), format), CHUNK_SIZE as int),
{
    let file = export(entries, format);
    chunks(file.as_slice(), CHUNK_SIZE)
}

} // verus!
