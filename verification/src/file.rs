//! What the engine knows of the file it writes to.
use vstd::prelude::*;

verus! {

/// How the next file is opened.
#[derive(Clone, Copy, Debug, PartialEq, Eq, Structural)]
pub struct FileOpenOptions {
    /// Empty the file on opening; otherwise it is created or appended to.
    pub truncate: bool,
}

impl FileOpenOptions {
    /// Options that truncate on opening, or append.
    pub fn new(truncate: bool) -> (options: Self)
        ensures
            options.truncate == truncate,
    {
        FileOpenOptions { truncate }
    }
}

impl Default for FileOpenOptions {
    /// Create or append; never truncate.
    fn default() -> (options: Self)
        ensures
            !options.truncate,
    {
        FileOpenOptions { truncate: false }
    }
}

/// A snapshot of the active file: when it was created, in nanoseconds since
/// the Unix epoch, and how many bytes it holds as far as this writer knows.
#[derive(Clone, Copy, Debug, PartialEq, Eq, Structural)]
pub struct FileStat {
    pub created: i128,
    pub len: usize,
}

impl FileStat {
    /// The snapshot taken when a file is opened: its creation time, and the
    /// size it already had.
    pub fn new(created: i128, len: usize) -> (stat: Self)
        ensures
            stat.created == created,
            stat.len == len,
    {
        FileStat { created, len }
    }

    /// The creation time, in nanoseconds since the Unix epoch.
    pub fn created(&self) -> (created: i128)
        ensures
            created == self.created,
    {
        self.created
    }

    /// The number of bytes in the file.
    pub fn len(&self) -> (len: usize)
        ensures
            len == self.len,
    {
        self.len
    }

    /// The snapshot after `written` more bytes.
    pub open spec fn grown(self, written: nat) -> FileStat
        recommends
            self.len + written <= usize::MAX,
    {
        FileStat { created: self.created, len: (self.len + written) as usize }
    }

    /// Accounts for `written` bytes that the file has accepted.
    pub fn record_write(&mut self, written: usize)
        requires
            old(self).len + written <= usize::MAX,
        ensures
            *final(self) == old(self).grown(written as nat),
    {
        self.len = self.len + written;
    }
}

} // verus!
