use std::collections::HashMap;
use std::io::Cursor;

use ipc_append::block::{last_block_end, Block, Malformed};
use ipc_append::dictionary::{DictionaryTracker, ReplacementRejected};
use ipc_append::metadata::{Compression, Endianness, FileMetadata, WriteOptions};
use ipc_append::resume::{begin, AppendError, Outcome, Phase};
use ipc_append::writer::{FileWriter, WriterState};

fn native() -> Endianness {
    if 1u16.to_ne_bytes()[0] == 1 {
        Endianness::Little
    } else {
        Endianness::Big
    }
}

fn foreign() -> Endianness {
    match native() {
        Endianness::Little => Endianness::Big,
        Endianness::Big => Endianness::Little,
    }
}

fn block(offset: i64, meta_data_length: i32, body_length: i64) -> Block {
    Block { offset, meta_data_length, body_length }
}

fn metadata(blocks: Vec<Block>, dictionaries: Option<Vec<Block>>) -> FileMetadata<&'static str> {
    FileMetadata { schema: "schema", byte_order: native(), blocks, dictionaries }
}

fn two_dictionaries() -> Vec<Block> {
    vec![block(8, 16, 32), block(56, 16, 24)]
}

fn loaded_dictionaries() -> HashMap<i64, Vec<u32>> {
    let mut d = HashMap::new();
    d.insert(0, vec![1, 2, 3]);
    d.insert(1, vec![4, 5]);
    d
}

/// Runs every step with success and returns the final phase.
fn run_to_end(mut phase: Phase) -> Phase {
    while matches!(phase, Phase::LoadDictionaries { .. } | Phase::Seek { .. }) {
        phase = phase.advance(Outcome::Completed);
    }
    phase
}

#[test]
fn resume_offset_is_end_of_last_block() {
    let m = metadata(vec![block(0, 8, 0), block(8, 92, 0), block(100, 20, 380)], None);
    let first = begin(&m, native());
    assert_eq!(first, Phase::Seek { resume_offset: 500 });
    assert_eq!(first.advance(Outcome::Completed), Phase::Ready { resume_offset: 500 });
}

#[test]
fn resumed_writer_stands_at_resume_offset() {
    let m = metadata(vec![block(100, 20, 380)], None);
    let phase = run_to_end(begin(&m, native()));
    let offset = match phase {
        Phase::Ready { resume_offset } => resume_offset,
        other => panic!("not ready: {:?}", other),
    };
    let mut stream = Cursor::new(vec![0u8; 600]);
    stream.set_position(offset);
    let options = WriteOptions { compression: Some(Compression::Zstd) };
    let w: FileWriter<Cursor<Vec<u8>>, &str, Vec<u32>> =
        FileWriter::resumed(stream, m, options, offset, HashMap::new());
    assert_eq!(w.block_offsets, 500);
    assert_eq!(w.writer.position(), 500);
    assert_eq!(w.state, WriterState::Started);
    assert_eq!(w.options, options);
    assert_eq!(w.schema, "schema");
    assert_eq!(w.record_blocks, vec![block(100, 20, 380)]);
    assert!(w.dictionary_blocks.is_empty());
    assert!(w.dictionary_tracker.dictionaries.is_empty());
    assert!(w.dictionary_tracker.cannot_replace);
}

#[test]
fn resuming_twice_gives_the_same_writer_state() {
    let results: Vec<(u64, HashMap<i64, Vec<u32>>)> = (0..2)
        .map(|_| {
            let m = metadata(vec![block(0, 8, 0), block(80, 16, 64)], Some(two_dictionaries()));
            let phase = run_to_end(begin(&m, native()));
            let offset = match phase {
                Phase::Ready { resume_offset } => resume_offset,
                other => panic!("not ready: {:?}", other),
            };
            let w = FileWriter::resumed(Cursor::new(Vec::<u8>::new()), m, WriteOptions { compression: None }, offset, loaded_dictionaries());
            (w.block_offsets, w.dictionary_tracker.dictionaries)
        })
        .collect();
    assert_eq!(results[0].0, 160);
    assert_eq!(results[0], results[1]);
}

#[test]
fn foreign_byte_order_is_unsupported() {
    let mut m = metadata(vec![block(100, 20, 380)], Some(two_dictionaries()));
    m.byte_order = foreign();
    let phase = begin(&m, native());
    assert_eq!(phase, Phase::Failed(AppendError::Unsupported));
    assert_eq!(phase.advance(Outcome::Completed), phase);
    assert_eq!(phase.advance(Outcome::IoFailed), phase);
}

#[test]
fn byte_order_is_checked_before_the_footer() {
    let mut m = metadata(vec![], None);
    m.byte_order = foreign();
    assert_eq!(begin(&m, native()), Phase::Failed(AppendError::Unsupported));
}

#[test]
fn empty_block_list_is_malformed() {
    let m = metadata(vec![], Some(two_dictionaries()));
    let phase = begin(&m, native());
    assert_eq!(phase, Phase::Failed(AppendError::MalformedFile(Malformed::NoMessages)));
    assert_eq!(run_to_end(phase), phase);
}

#[test]
fn negative_offset_is_malformed_before_dictionaries_are_read() {
    let m = metadata(vec![block(0, 8, 0), block(-5, 20, 380)], Some(two_dictionaries()));
    let phase = begin(&m, native());
    assert_eq!(phase, Phase::Failed(AppendError::MalformedFile(Malformed::NegativeOffset)));
    assert_eq!(run_to_end(phase), phase);
}

#[test]
fn negative_lengths_are_malformed() {
    assert_eq!(block(100, -1, 380).end_offset(), Err(Malformed::NegativeMetaDataLength));
    assert_eq!(block(100, 20, -380).end_offset(), Err(Malformed::NegativeBodyLength));
    assert_eq!(block(-1, -1, -1).end_offset(), Err(Malformed::NegativeOffset));
}

#[test]
fn only_the_last_block_counts() {
    let blocks = vec![block(-7, -1, -1), block(16, 8, 8)];
    assert_eq!(last_block_end(&blocks), Ok(32));
    assert_eq!(last_block_end(&[]), Err(Malformed::NoMessages));
}

#[test]
fn overflowing_end_is_malformed() {
    assert_eq!(block(i64::MAX, i32::MAX, i64::MAX).end_offset(), Err(Malformed::OffsetOverflow));
    assert_eq!(block(i64::MAX, 2, i64::MAX).end_offset(), Err(Malformed::OffsetOverflow));
    let m = metadata(vec![block(i64::MAX, 2, i64::MAX)], None);
    assert_eq!(begin(&m, native()), Phase::Failed(AppendError::MalformedFile(Malformed::OffsetOverflow)));
}

#[test]
fn largest_end_is_accepted() {
    assert_eq!(block(i64::MAX, 1, i64::MAX).end_offset(), Ok(u64::MAX));
    assert_eq!(block(0, 0, 0).end_offset(), Ok(0));
}

#[test]
fn dictionaries_are_read_before_seeking() {
    let m = metadata(vec![block(0, 8, 0), block(80, 16, 64)], Some(two_dictionaries()));
    let phase = begin(&m, native());
    assert_eq!(phase, Phase::LoadDictionaries { resume_offset: 160 });
    let phase = phase.advance(Outcome::Completed);
    assert_eq!(phase, Phase::Seek { resume_offset: 160 });
    assert_eq!(phase.advance(Outcome::Completed), Phase::Ready { resume_offset: 160 });
}

#[test]
fn failed_io_fails_resumption() {
    let load = Phase::LoadDictionaries { resume_offset: 160 };
    assert_eq!(load.advance(Outcome::IoFailed), Phase::Failed(AppendError::Io));
    let seek = Phase::Seek { resume_offset: 160 };
    assert_eq!(seek.advance(Outcome::IoFailed), Phase::Failed(AppendError::Io));
    let ready = Phase::Ready { resume_offset: 160 };
    assert_eq!(ready.advance(Outcome::IoFailed), ready);
}

#[test]
fn preloaded_dictionaries_cannot_be_redefined() {
    let m = metadata(vec![block(0, 8, 0), block(80, 16, 64)], Some(two_dictionaries()));
    let mut w = FileWriter::resumed(Cursor::new(Vec::<u8>::new()), m, WriteOptions { compression: None }, 160, loaded_dictionaries());
    assert_eq!(w.dictionary_blocks, two_dictionaries());
    assert_eq!(w.dictionary_tracker.dictionaries, loaded_dictionaries());
    let tracker = &mut w.dictionary_tracker;
    assert_eq!(tracker.insert(0, vec![9]), Err(ReplacementRejected { id: 0 }));
    assert_eq!(tracker.insert(1, vec![4, 5, 6]), Err(ReplacementRejected { id: 1 }));
    assert_eq!(tracker.insert(0, vec![1, 2, 3]), Ok(false));
    assert_eq!(tracker.insert(2, vec![7]), Ok(true));
    assert_eq!(tracker.dictionaries.len(), 3);
    assert_eq!(tracker.dictionaries[&0], vec![1, 2, 3]);
    assert_eq!(tracker.dictionaries[&2], vec![7]);
}

#[test]
fn replaceable_tracker_takes_new_values() {
    let mut tracker = DictionaryTracker { dictionaries: HashMap::new(), cannot_replace: false };
    assert_eq!(tracker.insert(5, 1u8), Ok(true));
    assert_eq!(tracker.insert(5, 1u8), Ok(false));
    assert_eq!(tracker.insert(5, 2u8), Ok(true));
    assert_eq!(tracker.dictionaries[&5], 2);
}
