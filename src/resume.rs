//! The decisions of resuming a file, as a state machine.
//!
//! The caller owns the stream. It asks [`begin`] what to do first, performs
//! the requested read or seek, and reports the outcome to [`Phase::advance`],
//! until the phase is `Ready` or `Failed`.
use vstd::prelude::*;

use crate::block::{last_block_end, spec_last_block_end, Malformed};
use crate::metadata::{Endianness, FileMetadata};

verus! {

/// Why a file cannot be resumed.
#[derive(Clone, Copy, Debug, PartialEq, Eq, Structural)]
pub enum AppendError {
    /// The file's byte order is not the platform's: appending to it is not
    /// supported.
    Unsupported,
    /// The footer does not describe a valid file.
    MalformedFile(Malformed),
    /// Reading the dictionaries or seeking failed.
    Io,
}

/// Where resumption stands, and so what the caller must do next.
#[derive(Clone, Copy, Debug, PartialEq, Eq, Structural)]
pub enum Phase {
    /// Read the dictionaries that the footer lists, before moving the cursor.
    LoadDictionaries { resume_offset: u64 },
    /// Move the stream's cursor to `resume_offset`.
    Seek { resume_offset: u64 },
    /// Done: new messages start at `resume_offset`.
    Ready { resume_offset: u64 },
    /// Given up; nothing more is done with the stream.
    Failed(AppendError),
}

/// How the step that a phase asked for went.
#[derive(Clone, Copy, Debug, PartialEq, Eq, Structural)]
pub enum Outcome {
    Completed,
    IoFailed,
}

/// The first phase for a file: every check on the footer comes before any
/// access to the stream.
pub open spec fn spec_begin<S>(metadata: FileMetadata<S>, native: Endianness) -> Phase {
    if metadata.byte_order != native {
        Phase::Failed(AppendError::Unsupported)
    } else {
        match spec_last_block_end(metadata.blocks@) {
            Err(m) => Phase::Failed(AppendError::MalformedFile(m)),
            Ok(resume_offset) => if metadata.dictionaries is Some {
                Phase::LoadDictionaries { resume_offset }
            } else {
                Phase::Seek { resume_offset }
            },
        }
    }
}

impl Phase {
    /// The phase after a step's outcome. `Ready` and `Failed` are final.
    pub open spec fn spec_advance(self, outcome: Outcome) -> Phase {
        match self {
            Phase::LoadDictionaries { resume_offset } => match outcome {
                Outcome::Completed => Phase::Seek { resume_offset },
                Outcome::IoFailed => Phase::Failed(AppendError::Io),
            },
            Phase::Seek { resume_offset } => match outcome {
                Outcome::Completed => Phase::Ready { resume_offset },
                Outcome::IoFailed => Phase::Failed(AppendError::Io),
            },
            _ => self,
        }
    }

    /// Whether this phase asks the caller to touch the stream.
    pub open spec fn touches_stream(self) -> bool {
        self is LoadDictionaries || self is Seek
    }

    /// Whether this phase stands for a file resumed at `offset`, or on its
    /// way there.
    pub open spec fn carries(self, offset: u64) -> bool {
        match self {
            Phase::LoadDictionaries { resume_offset } => resume_offset == offset,
            Phase::Seek { resume_offset } => resume_offset == offset,
            Phase::Ready { resume_offset } => resume_offset == offset,
            Phase::Failed(_) => false,
        }
    }

    /// Whether this phase asks the caller to read the dictionaries.
    pub open spec fn reads_dictionaries(self) -> bool {
        self is LoadDictionaries
    }

    /// The phase reached after reporting each outcome in turn.
    pub open spec fn after(self, outcomes: Seq<Outcome>) -> Phase
        decreases outcomes.len(),
    {
        if outcomes.len() == 0 {
            self
        } else {
            self.spec_advance(outcomes[0]).after(outcomes.drop_first())
        }
    }

    /// Reports the outcome of the step this phase asked for.
    pub fn advance(self, outcome: Outcome) -> (r: Phase)
        ensures
            r == self.spec_advance(outcome),
    {
        match self {
            Phase::LoadDictionaries { resume_offset } => match outcome {
                Outcome::Completed => Phase::Seek { resume_offset },
                Outcome::IoFailed => Phase::Failed(AppendError::Io),
            },
            Phase::Seek { resume_offset } => match outcome {
                Outcome::Completed => Phase::Ready { resume_offset },
                Outcome::IoFailed => Phase::Failed(AppendError::Io),
            },
            _ => self,
        }
    }
}

/// Checks the byte order and the last block of a file's footer, and says what
/// to do first.
pub fn begin<S>(metadata: &FileMetadata<S>, native: Endianness) -> (r: Phase)
    ensures
        r == spec_begin(*metadata, native),
{
    if metadata.byte_order != native {
        return Phase::Failed(AppendError::Unsupported);
    }
    match last_block_end(metadata.blocks.as_slice()) {
        Err(m) => Phase::Failed(AppendError::MalformedFile(m)),
        Ok(resume_offset) => if metadata.dictionaries.is_some() {
            Phase::LoadDictionaries { resume_offset }
        } else {
            Phase::Seek { resume_offset }
        },
    }
}

/// A phase that asks for nothing stays as it is, whatever is reported.
proof fn lemma_final_phase_stays(phase: Phase, outcomes: Seq<Outcome>)
    requires
        !phase.touches_stream(),
    ensures
        phase.after(outcomes) == phase,
    decreases outcomes.len(),
{
    if outcomes.len() > 0 {
        lemma_final_phase_stays(phase, outcomes.drop_first());
    }
}

/// A phase from which resumption may end ready at `offset` already carries
/// that offset.
proof fn lemma_ready_offset_is_carried(phase: Phase, outcomes: Seq<Outcome>, offset: u64)
    requires
        phase.after(outcomes) == (Phase::Ready { resume_offset: offset }),
    ensures
        phase.carries(offset),
    decreases outcomes.len(),
{
    if outcomes.len() > 0 {
        lemma_ready_offset_is_carried(phase.spec_advance(outcomes[0]), outcomes.drop_first(), offset);
    }
}

/// Once resumption has failed, no later phase touches the stream.
proof fn lemma_failure_is_final(phase: Phase, outcomes: Seq<Outcome>)
    requires
        phase is Failed,
    ensures
        forall|i: int|
            0 <= i <= outcomes.len() ==> #[trigger] phase.after(outcomes.take(i)) == phase,
        forall|i: int|
            0 <= i <= outcomes.len() ==> !(#[trigger] phase.after(outcomes.take(i))).touches_stream(),
{
    assert forall|i: int| 0 <= i <= outcomes.len() implies #[trigger] phase.after(outcomes.take(i))
        == phase by {
        lemma_final_phase_stays(phase, outcomes.take(i));
    }
}

/// A file whose byte order is not the platform's is refused as unsupported
/// at once: whatever the caller reports, no phase asks it to read a
/// dictionary or to seek.
pub proof fn lemma_foreign_byte_order_is_refused<S>(
    metadata: FileMetadata<S>,
    native: Endianness,
    outcomes: Seq<Outcome>,
)
    requires
        metadata.byte_order != native,
    ensures
        spec_begin(metadata, native) == Phase::Failed(AppendError::Unsupported),
        forall|i: int|
            0 <= i <= outcomes.len() ==> #[trigger] spec_begin(metadata, native).after(
                outcomes.take(i),
            ) == Phase::Failed(AppendError::Unsupported),
{
    lemma_failure_is_final(spec_begin(metadata, native), outcomes);
}

/// A footer of native byte order that lists no message is refused as
/// malformed, and the stream is never moved.
pub proof fn lemma_empty_footer_is_refused<S>(
    metadata: FileMetadata<S>,
    native: Endianness,
    outcomes: Seq<Outcome>,
)
    requires
        metadata.byte_order == native,
        metadata.blocks@.len() == 0,
    ensures
        spec_begin(metadata, native) == Phase::Failed(AppendError::MalformedFile(Malformed::NoMessages)),
        forall|i: int|
            0 <= i <= outcomes.len() ==> !(#[trigger] spec_begin(metadata, native).after(
                outcomes.take(i),
            )).touches_stream(),
{
    lemma_failure_is_final(spec_begin(metadata, native), outcomes);
}

/// A footer of native byte order whose last block has a negative offset is
/// refused as malformed before any dictionary is read.
pub proof fn lemma_negative_offset_is_refused<S>(
    metadata: FileMetadata<S>,
    native: Endianness,
    outcomes: Seq<Outcome>,
)
    requires
        metadata.byte_order == native,
        metadata.blocks@.len() > 0,
        metadata.blocks@.last().offset < 0,
    ensures
        spec_begin(metadata, native) == Phase::Failed(
            AppendError::MalformedFile(Malformed::NegativeOffset),
        ),
        forall|i: int|
            0 <= i <= outcomes.len() ==> !(#[trigger] spec_begin(metadata, native).after(
                outcomes.take(i),
            )).reads_dictionaries(),
{
    lemma_failure_is_final(spec_begin(metadata, native), outcomes);
}

/// Resuming the same file twice ends, when both runs end ready, at the same
/// offset: the end of the last listed message.
pub proof fn lemma_resume_offset_is_deterministic<S>(
    metadata: FileMetadata<S>,
    native: Endianness,
    first: Seq<Outcome>,
    second: Seq<Outcome>,
)
    requires
        spec_begin(metadata, native).after(first) is Ready,
        spec_begin(metadata, native).after(second) is Ready,
    ensures
        spec_begin(metadata, native).after(first) == spec_begin(metadata, native).after(second),
        spec_last_block_end(metadata.blocks@) is Ok,
        spec_begin(metadata, native).after(first) == (Phase::Ready {
            resume_offset: spec_last_block_end(metadata.blocks@)->Ok_0,
        }),
{
    let start = spec_begin(metadata, native);
    let a = start.after(first)->Ready_resume_offset;
    let b = start.after(second)->Ready_resume_offset;
    lemma_ready_offset_is_carried(start, first, a);
    lemma_ready_offset_is_carried(start, second, b);
}

} // verus!
