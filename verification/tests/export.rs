use subtitle_sync::entry::Entry;
use subtitle_sync::export::{captions, chunks, export, export_chunks, Chunk, Format, CHUNK_SIZE};

fn entry(start: i64, end: i64, text: &str) -> Entry {
    Entry::new(start, end, text.to_string())
}

#[test]
fn export_of_one_entry_is_one_numbered_block() {
    let file = export(&[entry(0, 1000, "Hi")], Format::Srt);
    assert_eq!(file, b"1\n00:00:00,000 --> 00:00:01,000\nHi\n\n".to_vec());
}

#[test]
fn export_numbers_blocks_and_writes_times_by_component() {
    let file = export(
        &[entry(0, 1500, "first"), entry(3_723_004, 3_725_678, "second\nline")],
        Format::Srt,
    );
    assert_eq!(
        file,
        b"1\n00:00:00,000 --> 00:00:01,500\nfirst\n\n2\n01:02:03,004 --> 01:02:05,678\nsecond\nline\n\n"
            .to_vec()
    );
}

#[test]
fn export_of_no_entries_is_an_empty_file() {
    assert_eq!(export(&[], Format::Srt), Vec::<u8>::new());
    assert_eq!(export_chunks(&[], Format::Srt), vec![]);
}

#[test]
fn captions_carry_times_and_text() {
    assert_eq!(
        captions(&[entry(1, 2, "a"), entry(3, 4, "b")]),
        vec![(1, 2, "a".to_string()), (3, 4, "b".to_string())]
    );
}

#[test]
fn chunks_hold_the_data_in_order() {
    let data: Vec<u8> = (0..2500u32).map(|i| (i % 251) as u8).collect();
    let out = chunks(&data, 1024);
    assert_eq!(out.len(), 3);
    assert_eq!(out[0].content, data[..1024].to_vec());
    assert_eq!(out[1].content, data[1024..2048].to_vec());
    assert_eq!(out[2].content, data[2048..].to_vec());
    assert_eq!(out[2].content.len(), 452);
}

#[test]
fn chunks_at_the_edges() {
    assert_eq!(chunks(&[], 1024), vec![]);
    assert_eq!(chunks(&[7], 1024), vec![Chunk { content: vec![7] }]);
    let exact = vec![1u8; 1024];
    assert_eq!(chunks(&exact, 1024), vec![Chunk { content: exact.clone() }]);
    let over = vec![1u8; 1025];
    let out = chunks(&over, 1024);
    assert_eq!(out.len(), 2);
    assert_eq!(out[1].content, vec![1u8]);
    assert_eq!(
        chunks(&[1, 2, 3, 4, 5], 2),
        vec![Chunk { content: vec![1, 2] }, Chunk { content: vec![3, 4] }, Chunk { content: vec![5] }]
    );
    assert_eq!(chunks(&[1, 2, 3], usize::MAX), vec![Chunk { content: vec![1, 2, 3] }]);
}

#[test]
fn exported_file_comes_in_chunks_of_1024_bytes() {
    assert_eq!(CHUNK_SIZE, 1024);
    let entries: Vec<Entry> = (0..100).map(|i| entry(i * 1000, i * 1000 + 900, "some caption text")).collect();
    let whole = export(&entries, Format::Srt);
    let parts = export_chunks(&entries, Format::Srt);
    assert!(whole.len() > 2048);
    assert_eq!(parts.len(), (whole.len() + 1023) / 1024);
    let mut joined: Vec<u8> = Vec::new();
    for (i, part) in parts.iter().enumerate() {
        if i + 1 < parts.len() {
            assert_eq!(part.content.len(), 1024);
        } else {
            assert!(!part.content.is_empty() && part.content.len() <= 1024);
        }
        joined.extend_from_slice(&part.content);
    }
    assert_eq!(joined, whole);
}

#[test]
fn format_numbers() {
    assert_eq!(Format::from_i32(0), Some(Format::Srt));
    assert_eq!(Format::from_i32(1), None);
    assert_eq!(Format::from_i32(-1), None);
    assert_eq!(Format::Srt.to_i32(), 0);
}
