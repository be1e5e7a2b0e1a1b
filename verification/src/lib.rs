//! Splits a protected audiobook into one audio file per chapter.
//!
//! The library holds every decision of a run and touches nothing outside
//! itself: the caller opens the container, reads the file, runs the key
//! lookup and the transcoder, and reports back what came of it.
//!
//! - [`checksum`] finds the checksum window of the source file and writes
//!   it in hexadecimal.
//! - [`key`] builds the key lookup and reads the key out of its output.
//! - [`chapter_info`] turns the chapters of the container into records.
//! - [`dispatch`] builds one transcode job per record and sums up how the
//!   jobs went.
//! - [`validators`] checks what the command line gives.
//! - [`pipeline`] puts these in order, as a state machine that the caller
//!   drives.

pub mod chapter_info;
pub mod checksum;
pub mod dispatch;
pub mod error;
pub mod key;
pub mod pipeline;
pub mod validators;
