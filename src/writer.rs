//! The state of a writer that carries on an existing file.
use std::collections::HashMap;

use vstd::prelude::*;
use vstd::std_specs::cmp::PartialEqSpec;

use crate::block::Block;
use crate::block::spec_last_block_end;
use crate::dictionary::{insert_outcome, DictionaryTracker, ReplacementRejected};
use crate::metadata::{Endianness, FileMetadata, WriteOptions};
use crate::resume::{lemma_resume_offset_is_deterministic, spec_begin, Outcome};

verus! {

/// Where a writer is in the life of a file.
#[derive(Clone, Copy, Debug, PartialEq, Eq, Structural)]
pub enum WriterState {
    /// Nothing written yet, not even the schema message.
    Unstarted,
    /// The schema message is written: further messages may follow.
    Started,
    /// The footer is written.
    Finished,
}

/// A writer of a container file, and all it needs to write the next message
/// and, at the end, a footer that lists every message.
#[derive(Debug)]
pub struct FileWriter<W, S, V> {
    pub writer: W,
    pub options: WriteOptions,
    pub schema: S,
    /// The first free byte of the file: where the next message starts.
    pub block_offsets: u64,
    pub dictionary_blocks: Vec<Block>,
    pub record_blocks: Vec<Block>,
    pub state: WriterState,
    pub dictionary_tracker: DictionaryTracker<V>,
}

/// The dictionary blocks a footer lists; none when it lists no dictionary.
pub open spec fn listed_dictionary_blocks(dictionaries: Option<Vec<Block>>) -> Seq<Block> {
    match dictionaries {
        Some(blocks) => blocks@,
        None => Seq::empty(),
    }
}

impl<W, S, V: PartialEq> FileWriter<W, S, V> {
    /// Whether this is the writer that resuming a file gives: the file's
    /// messages listed by `metadata`, the stream at `resume_offset`, and the
    /// dictionaries read from disk kept under the no-replace policy.
    pub open spec fn is_resumption_of(
        self,
        writer: W,
        metadata: FileMetadata<S>,
        options: WriteOptions,
        resume_offset: u64,
        dictionaries: Map<i64, V>,
    ) -> bool {
        &&& self.writer == writer
        &&& self.options == options
        &&& self.schema == metadata.schema
        &&& self.block_offsets == resume_offset
        &&& self.record_blocks@ == metadata.blocks@
        &&& self.dictionary_blocks@ == listed_dictionary_blocks(metadata.dictionaries)
        &&& self.state == WriterState::Started
        &&& self.dictionary_tracker.dictionaries@ == dictionaries
        &&& self.dictionary_tracker.cannot_replace
    }

    /// The writer for a file that already holds the messages `metadata`
    /// lists, whose stream stands at `resume_offset` and whose dictionaries
    /// were read into `dictionaries`.
    ///
    /// It is as a writer that wrote the file itself would be: started, with
    /// the existing blocks to be extended, and with the dictionaries on disk
    /// recorded so that none of them is written again or replaced.
    pub fn resumed(
        writer: W,
        metadata: FileMetadata<S>,
        options: WriteOptions,
        resume_offset: u64,
        dictionaries: HashMap<i64, V>,
    ) -> (r: Self)
        ensures
            r.is_resumption_of(writer, metadata, options, resume_offset, dictionaries@),
    {
        let dictionary_blocks = match metadata.dictionaries {
            Some(blocks) => blocks,
            None => Vec::new(),
        };
        FileWriter {
            writer,
            options,
            schema: metadata.schema,
            block_offsets: resume_offset,
            dictionary_blocks,
            record_blocks: metadata.blocks,
            state: WriterState::Started,
            dictionary_tracker: DictionaryTracker::preloaded(dictionaries),
        }
    }
}

/// Two resumptions of the same file, at the offset its footer gives and with
/// the same dictionaries read from it, give writers at the same offset with
/// the same dictionary table.
pub proof fn lemma_resumption_is_idempotent<W, S, V: PartialEq>(
    first: FileWriter<W, S, V>,
    second: FileWriter<W, S, V>,
    first_stream: W,
    second_stream: W,
    metadata: FileMetadata<S>,
    options: WriteOptions,
    native: Endianness,
    first_outcomes: Seq<Outcome>,
    second_outcomes: Seq<Outcome>,
    dictionaries: Map<i64, V>,
)
    requires
        spec_begin(metadata, native).after(first_outcomes) is Ready,
        spec_begin(metadata, native).after(second_outcomes) is Ready,
        first.is_resumption_of(
            first_stream,
            metadata,
            options,
            spec_begin(metadata, native).after(first_outcomes)->Ready_resume_offset,
            dictionaries,
        ),
        second.is_resumption_of(
            second_stream,
            metadata,
            options,
            spec_begin(metadata, native).after(second_outcomes)->Ready_resume_offset,
            dictionaries,
        ),
    ensures
        first.block_offsets == second.block_offsets,
        first.block_offsets == spec_last_block_end(metadata.blocks@)->Ok_0,
        first.dictionary_tracker.dictionaries@ == second.dictionary_tracker.dictionaries@,
{
    lemma_resume_offset_is_deterministic(metadata, native, first_outcomes, second_outcomes);
}

/// A resumed writer's table holds exactly the dictionaries read from disk;
/// offering the same values under one of their ids writes nothing, and
/// offering other values is refused.
pub proof fn lemma_preloaded_dictionaries_are_kept<W, S, V: PartialEq>(
    resumed: FileWriter<W, S, V>,
    writer: W,
    metadata: FileMetadata<S>,
    options: WriteOptions,
    resume_offset: u64,
    dictionaries: Map<i64, V>,
    id: i64,
    values: V,
)
    requires
        resumed.is_resumption_of(writer, metadata, options, resume_offset, dictionaries),
        dictionaries.contains_key(id),
    ensures
        resumed.dictionary_tracker.dictionaries@.dom() == dictionaries.dom(),
        forall|k: i64|
            dictionaries.contains_key(k) ==> #[trigger] resumed.dictionary_tracker.dictionaries@[k]
                == dictionaries[k],
        dictionaries[id].eq_spec(&values) ==> insert_outcome(
            resumed.dictionary_tracker.dictionaries@,
            resumed.dictionary_tracker.cannot_replace,
            id,
            values,
        ) == Ok::<bool, ReplacementRejected>(false),
        !dictionaries[id].eq_spec(&values) ==> insert_outcome(
            resumed.dictionary_tracker.dictionaries@,
            resumed.dictionary_tracker.cannot_replace,
            id,
            values,
        ) == Err::<bool, ReplacementRejected>(ReplacementRejected { id }),
{
}

} // verus!
