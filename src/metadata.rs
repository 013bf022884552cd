//! What is already known of an existing file before appending to it.
use vstd::prelude::*;

use crate::block::Block;

verus! {

/// Byte order of the multi-byte integers in a file's message bodies.
#[derive(Clone, Copy, Debug, PartialEq, Eq, Structural)]
pub enum Endianness {
    Little,
    Big,
}

/// Compression applied to message bodies written from now on.
#[derive(Clone, Copy, Debug, PartialEq, Eq, Structural)]
pub enum Compression {
    Lz4,
    Zstd,
}

/// Options of the writer; carried through unchanged.
#[derive(Clone, Copy, Debug, PartialEq, Eq, Structural)]
pub struct WriteOptions {
    pub compression: Option<Compression>,
}

/// The parsed footer of an existing file.
///
/// `S` is the file's schema, which resuming hands on without reading it.
#[derive(Debug)]
pub struct FileMetadata<S> {
    pub schema: S,
    pub byte_order: Endianness,
    /// One entry per message written so far, in file order; the schema
    /// message counts as the first.
    pub blocks: Vec<Block>,
    /// One entry per dictionary message written so far; `None` when the file
    /// holds no dictionary.
    pub dictionaries: Option<Vec<Block>>,
}

} // verus!
