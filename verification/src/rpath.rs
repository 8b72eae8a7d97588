//! A handle on a filesystem path.

use vstd::prelude::*;

verus! {

/// Asks `std::path::Path::exists` whether the filesystem has an entry at
/// `path`. The answer depends on the disk at the moment of the call, so
/// nothing is claimed of it.
#[verifier::external_body]
fn entry_exists(path: &str) -> (found: bool) {
    std::path::Path::new(path).exists()
}

/// Asks `std::path::Path::is_dir` whether the entry at `path` is a
/// directory. The answer depends on the disk at the moment of the call, so
/// nothing is claimed of it.
#[verifier::external_body]
fn entry_is_dir(path: &str) -> (found: bool) {
    std::path::Path::new(path).is_dir()
}

/// Asks `std::path::Path::is_file` whether the entry at `path` is a
/// regular file. The answer depends on the disk at the moment of the
/// call, so nothing is claimed of it.
#[verifier::external_body]
fn entry_is_file(path: &str) -> (found: bool) {
    std::path::Path::new(path).is_file()
}

/// A path, kept as the text it was made from. The path need not exist.
pub struct Rpath {
    original_path: String,
}

impl View for Rpath {
    type V = Seq<char>;

    closed spec fn view(&self) -> Seq<char> {
        self.original_path@
    }
}

impl Rpath {
    /// A handle on `original_path`, which is taken as it is.
    pub fn new(original_path: String) -> (handle: Rpath)
        ensures
            handle@ == original_path@,
    {
        Rpath { original_path }
    }

    /// The path that the handle was made from.
    pub fn path(&self) -> (path: &str)
        ensures
            path@ == self@,
    {
        self.original_path.as_str()
    }

    /// Whether the filesystem has an entry at the path: a file, a
    /// directory or anything else. A query that fails, for want of
    /// permission or otherwise, counts as no entry.
    ///
    /// Each call asks the filesystem anew, so the answer may be out of
    /// date by the time the caller acts on it. The handle stays as it was.
    pub fn path_exists(&mut self) -> (found: bool)
        ensures
            final(self)@ == old(self)@,
    {
        entry_exists(self.original_path.as_str())
    }

    /// Whether the filesystem has a directory at the path. A query that
    /// fails counts as no entry.
    ///
    /// Each call asks the filesystem anew. The handle stays as it was.
    pub fn is_dir(&mut self) -> (found: bool)
        ensures
            final(self)@ == old(self)@,
    {
        entry_is_dir(self.original_path.as_str())
    }

    /// Whether the filesystem has a regular file at the path. A query
    /// that fails counts as no entry.
    ///
    /// Each call asks the filesystem anew. The handle stays as it was.
    pub fn is_file(&mut self) -> (found: bool)
        ensures
            final(self)@ == old(self)@,
    {
        entry_is_file(self.original_path.as_str())
    }
}

} // verus!
