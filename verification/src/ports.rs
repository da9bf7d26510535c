//! The outside world as the logic sees it.
//!
//! The logic touches the SD card and the clock only through these traits, so
//! that it can be checked without the device; the device layer implements them.

use vstd::prelude::*;
use vstd::string::StringExecFns;

verus! {

/// Why the storage could not be read or written.
#[derive(Debug, Clone, PartialEq, Eq)]
pub enum StorageError {
    /// No file at the given path.
    NotFound,
    /// Reading or writing failed, e.g. no card or a write-protected card.
    Io(String),
}

/// The sentence that tells a parent what went wrong.
pub open spec fn storage_error_text(error: StorageError) -> Seq<char> {
    match error {
        StorageError::NotFound => "ファイルが見つかりません"@,
        StorageError::Io(detail) => "読み書きに失敗しました: "@ + detail@,
    }
}

impl StorageError {
    /// What went wrong, for a parent.
    pub fn describe(&self) -> (text: String)
        ensures
            text@ == storage_error_text(*self),
    {
        match self {
            StorageError::NotFound => "ファイルが見つかりません".to_owned(),
            StorageError::Io(detail) => {
                let mut text = "読み書きに失敗しました: ".to_owned();
                text.append(detail.as_str());
                text
            },
        }
    }
}

/// The text a file holds after `contents` is appended to it; a missing file
/// starts out empty.
pub open spec fn appended(files: Map<Seq<char>, Seq<char>>, path: Seq<char>, contents: Seq<char>) -> Map<
    Seq<char>,
    Seq<char>,
> {
    files.insert(
        path,
        (if files.contains_key(path) {
            files[path]
        } else {
            Seq::empty()
        }) + contents,
    )
}

/// Files on the SD card. Paths are absolute within the card and do not
/// include the mount point, e.g. `/.m5a/config.toml`.
///
/// An implementation stands for a file system: `files` is the text of every
/// file on it, by path, and `dirs` the directories made on it. Any call may
/// fail, as a card may be missing or broken; what a failed write leaves
/// behind is not said. `files` and `dirs` are a specification: they are never
/// called, and an implementation written outside Verus gives them bodies that
/// are never run.
pub trait Storage {
    /// The text of each file on the card, by its path.
    spec fn files(&self) -> Map<Seq<char>, Seq<char>>;

    /// The directories on the card.
    spec fn dirs(&self) -> Set<Seq<char>>;

    /// Whether something is at `path`: true for every file (a directory
    /// there counts too).
    fn file_exists(&self, path: &str) -> (exists: bool)
        ensures
            self.files().contains_key(path@) ==> exists,
    ;

    /// The text of the file at `path`.
    fn read_text(&self, path: &str) -> (text: Result<String, StorageError>)
        ensures
            text matches Ok(t) ==> self.files().contains_key(path@) && t@ == self.files()[path@],
    ;

    /// Replaces the file at `path` with `contents`, creating it if needed.
    fn write_text(&mut self, path: &str, contents: &str) -> (result: Result<(), StorageError>)
        ensures
            result is Ok ==> final(self).files() == old(self).files().insert(path@, contents@)
                && final(self).dirs() == old(self).dirs(),
    ;

    /// Adds `contents` at the end of the file at `path`, creating it if needed.
    fn append_text(&mut self, path: &str, contents: &str) -> (result: Result<(), StorageError>)
        ensures
            result is Ok ==> final(self).files() == appended(old(self).files(), path@, contents@)
                && final(self).dirs() == old(self).dirs(),
    ;

    /// Creates the directory `path` and those above it. No file changes,
    /// whether or not it succeeds.
    fn create_dir(&mut self, path: &str) -> (result: Result<(), StorageError>)
        ensures
            final(self).files() == old(self).files(),
            result is Ok ==> final(self).dirs().contains(path@) && old(self).dirs().subset_of(
                final(self).dirs(),
            ),
    ;
}

/// Time since start-up, which sets the phase of the face animation.
pub trait Clock {
    fn now_ms(&self) -> u64;
}

} // verus!
