//! An append-only file writer that moves on to a new file when a rolling
//! condition holds, and keeps only the newest files of its own naming scheme.
//!
//! The library holds the decisions: when to roll, what the next file is
//! called, which files of a directory have outlived the retention limit, and
//! in which order flushing, opening and pruning follow one another. The
//! caller owns the file handle and the directory; it performs each
//! [`rolling::Action`] and reports the matching [`rolling::Event`].
pub mod clock;
pub mod error;
pub mod file;
pub mod rolling;
pub mod text;
