//! Resuming an existing IPC container file so that new messages can be
//! appended after the ones already written.
pub mod block;
pub mod dictionary;
pub mod metadata;
pub mod resume;
pub mod writer;
