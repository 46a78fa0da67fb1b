//! The operations of a storage backend, with their arguments and replies.

use vstd::prelude::*;
use crate::entry::Metadata;

verus! {

/// The operations an accessor offers.
#[derive(Clone, Copy, Debug, PartialEq, Eq, Structural)]
pub enum Operation {
    /// Read the content of a file.
    Read,
    /// Write the content of a file.
    Write,
    /// Fetch the metadata of one entry.
    Stat,
    /// Remove entries.
    Delete,
    /// Enumerate the entries under a directory.
    List,
}

impl Operation {
    /// The name under which the operation appears in messages.
    pub open spec fn spec_name(self) -> Seq<char> {
        match self {
            Operation::Read => "read"@,
            Operation::Write => "write"@,
            Operation::Stat => "stat"@,
            Operation::Delete => "delete"@,
            Operation::List => "list"@,
        }
    }

    /// The name under which the operation appears in messages.
    pub fn name(self) -> (name: &'static str)
        ensures
            name@ == self.spec_name(),
    {
        match self {
            Operation::Read => "read",
            Operation::Write => "write",
            Operation::Stat => "stat",
            Operation::Delete => "delete",
            Operation::List => "list",
        }
    }
}

/// Arguments of `read`.
#[derive(Clone, Copy, Debug, PartialEq, Eq, Structural)]
pub struct OpRead {
    /// Offset of the first byte wanted.
    pub offset: u64,
    /// Number of bytes wanted; `None` reads to the end.
    pub size: Option<u64>,
}

/// Arguments of `write`.
#[derive(Clone, Copy, Debug, PartialEq, Eq, Structural)]
pub struct OpWrite {
    /// Append to the file instead of replacing it.
    pub append: bool,
}

/// Arguments of `stat`.
#[derive(Clone, Debug, PartialEq, Eq)]
pub struct OpStat {
    /// The version of the entry wanted; `None` asks for the current one.
    pub version: Option<String>,
}

/// Arguments of `list`.
#[derive(Clone, Copy, Debug, PartialEq, Eq, Structural)]
pub struct OpList {
    /// Descend into sub-directories.
    pub recursive: bool,
    /// Upper bound on the entries fetched per round trip.
    pub limit: Option<u64>,
}

/// Reply to `read`.
#[derive(Clone, Copy, Debug, PartialEq, Eq, Structural)]
pub struct RpRead {
    /// Number of bytes the reader will yield, where the backend knows it.
    pub size: Option<u64>,
}

/// Reply to `write`.
#[derive(Clone, Copy, Debug, PartialEq, Eq, Structural)]
pub struct RpWrite {}

/// Reply to `delete`.
#[derive(Clone, Copy, Debug, PartialEq, Eq, Structural)]
pub struct RpDelete {}

/// Reply to `list`.
#[derive(Clone, Copy, Debug, PartialEq, Eq, Structural)]
pub struct RpList {}

/// Reply to `stat`: the metadata of the entry.
#[derive(Clone, Debug, PartialEq, Eq, Structural)]
pub struct RpStat {
    meta: Metadata,
}

impl RpStat {
    /// The metadata carried by the reply.
    pub closed spec fn spec_metadata(&self) -> Metadata {
        self.meta
    }

    /// A reply that carries `meta`.
    pub fn new(meta: Metadata) -> (rp: RpStat)
        ensures
            rp.spec_metadata() == meta,
    {
        RpStat { meta }
    }

    /// The metadata carried by the reply.
    pub fn metadata(&self) -> (meta: &Metadata)
        ensures
            *meta == self.spec_metadata(),
    {
        &self.meta
    }

    /// Unwraps the reply into its metadata.
    pub fn into_metadata(self) -> (meta: Metadata)
        ensures
            meta == self.spec_metadata(),
    {
        self.meta
    }
}

} // verus!
