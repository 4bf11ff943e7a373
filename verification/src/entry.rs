//! The entries of a directory as the browser sees them.

use vstd::prelude::*;

verus! {

/// What kind of thing a path leads to.
#[derive(Clone, Copy, Debug, PartialEq, Eq, Structural)]
pub enum EntryKind {
    /// A directory, or a link that leads to one.
    Directory,
    /// A regular file, or a link that leads to one.
    File,
    /// Anything else: a dangling link, a socket, a device.
    Other,
}

/// Why a directory could not be listed.
#[derive(Clone, Copy, Debug, PartialEq, Eq, Structural)]
pub enum FilesystemError {
    NotFound,
    PermissionDenied,
    NotADirectory,
    Other,
}

/// One child of a directory: its absolute path, the name it is shown and
/// sorted by, and its kind.
#[derive(Debug, PartialEq, Eq)]
pub struct PathEntry {
    pub path: String,
    pub name: String,
    pub kind: EntryKind,
}

/// The mathematical value of a [`PathEntry`].
pub struct EntryModel {
    pub path: Seq<char>,
    pub name: Seq<char>,
    pub kind: EntryKind,
}

impl View for PathEntry {
    type V = EntryModel;

    open spec fn view(&self) -> EntryModel {
        EntryModel { path: self.path@, name: self.name@, kind: self.kind }
    }
}

impl DeepView for PathEntry {
    type V = EntryModel;

    open spec fn deep_view(&self) -> EntryModel {
        self@
    }
}

impl Clone for PathEntry {
    fn clone(&self) -> (r: Self)
        ensures
            r@ == self@,
    {
        PathEntry { path: self.path.clone(), name: self.name.clone(), kind: self.kind }
    }
}

impl PathEntry {
    /// The entry at `path` that is called `name` and is of kind `kind`.
    pub fn new(path: String, name: String, kind: EntryKind) -> (r: Self)
        ensures
            r@ == (EntryModel { path: path@, name: name@, kind }),
    {
        PathEntry { path, name, kind }
    }

    /// Whether the entry is a directory.
    pub fn is_dir(&self) -> (r: bool)
        ensures
            r == (self@.kind == EntryKind::Directory),
    {
        self.kind == EntryKind::Directory
    }

    /// Whether the entry is a regular file.
    pub fn is_file(&self) -> (r: bool)
        ensures
            r == (self@.kind == EntryKind::File),
    {
        self.kind == EntryKind::File
    }
}

} // verus!
