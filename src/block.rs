//! Footer entries of a container file and the first free byte after them.
use vstd::prelude::*;

verus! {

/// One footer entry: where a message starts and how long its two parts are.
///
/// The footer stores these fields as signed integers; a negative value means
/// the file is corrupt.
#[derive(Clone, Copy, Debug, PartialEq, Eq, Structural)]
pub struct Block {
    pub offset: i64,
    pub meta_data_length: i32,
    pub body_length: i64,
}

/// Why a file cannot be a valid container.
#[derive(Clone, Copy, Debug, PartialEq, Eq, Structural)]
pub enum Malformed {
    /// The footer lists no message at all, not even the schema message.
    NoMessages,
    NegativeOffset,
    NegativeMetaDataLength,
    NegativeBodyLength,
    /// The end of the last message lies beyond `u64::MAX`.
    OffsetOverflow,
}

impl Block {
    /// The byte just after this block, as an unbounded number.
    pub open spec fn end(self) -> int {
        self.offset + self.meta_data_length + self.body_length
    }

    /// The first free byte after this block, or why there is none.
    pub open spec fn spec_end_offset(self) -> Result<u64, Malformed> {
        if self.offset < 0 {
            Err(Malformed::NegativeOffset)
        } else if self.meta_data_length < 0 {
            Err(Malformed::NegativeMetaDataLength)
        } else if self.body_length < 0 {
            Err(Malformed::NegativeBodyLength)
        } else if self.end() > u64::MAX {
            Err(Malformed::OffsetOverflow)
        } else {
            Ok(self.end() as u64)
        }
    }

    /// Converts the three signed fields after checking their sign, and adds
    /// them without wrapping.
    pub fn end_offset(&self) -> (r: Result<u64, Malformed>)
        ensures
            r == self.spec_end_offset(),
    {
        if self.offset < 0 {
            return Err(Malformed::NegativeOffset);
        }
        if self.meta_data_length < 0 {
            return Err(Malformed::NegativeMetaDataLength);
        }
        if self.body_length < 0 {
            return Err(Malformed::NegativeBodyLength);
        }
        let offset = self.offset as u64;
        let meta_data_length = self.meta_data_length as u64;
        let body_length = self.body_length as u64;
        match offset.checked_add(meta_data_length) {
            None => Err(Malformed::OffsetOverflow),
            Some(head) => match head.checked_add(body_length) {
                None => Err(Malformed::OffsetOverflow),
                Some(end) => Ok(end),
            },
        }
    }
}

/// The first free byte after the last message of a footer's block list.
pub open spec fn spec_last_block_end(blocks: Seq<Block>) -> Result<u64, Malformed> {
    if blocks.len() == 0 {
        Err(Malformed::NoMessages)
    } else {
        blocks.last().spec_end_offset()
    }
}

/// Where the next message goes: the end of the last listed message.
pub fn last_block_end(blocks: &[Block]) -> (r: Result<u64, Malformed>)
    ensures
        r == spec_last_block_end(blocks@),
{
    if blocks.len() == 0 {
        Err(Malformed::NoMessages)
    } else {
        blocks[blocks.len() - 1].end_offset()
    }
}

} // verus!
