//! Entries of a storage backend and the metadata it reports for them.

use vstd::prelude::*;

verus! {

/// The kind of an entry, as a backend declares it.
#[derive(Clone, Copy, Debug, PartialEq, Eq, Structural)]
pub enum EntryMode {
    /// A file: something with content.
    File,
    /// A directory: something that holds entries.
    Dir,
    /// The backend did not, or could not, say.
    Unknown,
}

/// What a backend reports about one entry.
///
/// Only the mode is inspected here; everything else is carried along
/// untouched.
#[derive(Clone, Debug, PartialEq, Eq, Structural)]
pub struct Metadata {
    mode: EntryMode,
    content_length: u64,
}

impl Metadata {
    /// The declared mode.
    pub closed spec fn spec_mode(&self) -> EntryMode {
        self.mode
    }

    /// The declared length of the content, in bytes.
    pub closed spec fn spec_content_length(&self) -> u64 {
        self.content_length
    }

    /// Metadata of the given mode, with no content.
    pub fn new(mode: EntryMode) -> (meta: Metadata)
        ensures
            meta.spec_mode() == mode,
            meta.spec_content_length() == 0,
    {
        Metadata { mode, content_length: 0 }
    }

    /// The same metadata with the content length replaced.
    pub fn with_content_length(self, content_length: u64) -> (meta: Metadata)
        ensures
            meta.spec_mode() == self.spec_mode(),
            meta.spec_content_length() == content_length,
    {
        Metadata { mode: self.mode, content_length }
    }

    /// The declared mode.
    #[verifier::when_used_as_spec(spec_mode)]
    pub fn mode(&self) -> (mode: EntryMode)
        ensures
            mode == self.spec_mode(),
    {
        self.mode
    }

    /// The declared length of the content, in bytes.
    #[verifier::when_used_as_spec(spec_content_length)]
    pub fn content_length(&self) -> (len: u64)
        ensures
            len == self.spec_content_length(),
    {
        self.content_length
    }
}

/// One element of a listing: a path and the metadata reported for it.
#[derive(Clone, Debug, PartialEq, Eq)]
pub struct Entry {
    path: String,
    meta: Metadata,
}

/// An [`Entry`] as a mathematical value.
pub struct EntryView {
    /// The path, as a sequence of characters.
    pub path: Seq<char>,
    /// The metadata reported for the path.
    pub metadata: Metadata,
}

impl View for Entry {
    type V = EntryView;

    closed spec fn view(&self) -> EntryView {
        EntryView { path: self.path@, metadata: self.meta }
    }
}

impl Entry {
    /// The declared mode.
    pub open spec fn spec_mode(&self) -> EntryMode {
        self@.metadata.spec_mode()
    }

    /// An entry for `path` with the given metadata.
    pub fn new(path: &str, meta: Metadata) -> (entry: Entry)
        ensures
            entry@.path == path@,
            entry@.metadata == meta,
    {
        Entry { path: path.to_owned(), meta }
    }

    /// The path of the entry.
    pub fn path(&self) -> (path: &str)
        ensures
            path@ == self@.path,
    {
        self.path.as_str()
    }

    /// The metadata of the entry.
    pub fn metadata(&self) -> (meta: &Metadata)
        ensures
            *meta == self@.metadata,
    {
        &self.meta
    }

    /// The declared mode of the entry.
    #[verifier::when_used_as_spec(spec_mode)]
    pub fn mode(&self) -> (mode: EntryMode)
        ensures
            mode == self.spec_mode(),
    {
        self.meta.mode()
    }
}

} // verus!
