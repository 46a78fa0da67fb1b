//! The capability set of a storage backend, and of the layers put around one.

use std::sync::Arc;
use vstd::prelude::*;
use crate::entry::Entry;
use crate::error::Error;
use crate::info::AccessorInfo;
use crate::ops::{OpList, OpRead, OpStat, OpWrite, RpDelete, RpList, RpRead, RpStat, RpWrite};

verus! {

/// A lazy stream of directory entries, pulled one at a time.
///
/// What a stream may yield is the implementation's own business: it says so
/// in `yields`, and `next` keeps to it. An implementation that leaves
/// `yields` as it is here promises nothing.
pub trait List: Sized {
    /// Whether a call of `next` on `self` may leave the stream as `after`
    /// and return `outcome`.
    open spec fn yields(&self, after: &Self, outcome: Result<Option<Entry>, Error>) -> bool {
        true
    }

    /// The next entry, `None` at the end of the stream, or the error that
    /// ended it.
    fn next(&mut self) -> (outcome: Result<Option<Entry>, Error>)
        ensures
            old(self).yields(final(self), outcome),
    ;
}

/// The operations of a storage backend.
///
/// For each operation the implementation says in a `*_returns` predicate
/// what the operation may return for given arguments, and the operation
/// keeps to it. An implementation that leaves a predicate as it is here
/// promises nothing of that operation. A layer states its own predicates
/// over those of the accessor it wraps.
pub trait Access: Sized {
    /// What `read` hands out to pull the content from.
    type Reader;

    /// What `write` hands out to push the content into.
    type Writer;

    /// The stream that `list` hands out.
    type Lister: List;

    /// What `delete` hands out to queue removals on.
    type Deleter;

    /// Whether `info` may return `info`.
    open spec fn info_returns(&self, info: AccessorInfo) -> bool {
        true
    }

    /// Whether `read` may return `outcome` for these arguments.
    open spec fn read_returns(
        &self,
        path: Seq<char>,
        args: OpRead,
        outcome: Result<(RpRead, Self::Reader), Error>,
    ) -> bool {
        true
    }

    /// Whether `write` may return `outcome` for these arguments.
    open spec fn write_returns(
        &self,
        path: Seq<char>,
        args: OpWrite,
        outcome: Result<(RpWrite, Self::Writer), Error>,
    ) -> bool {
        true
    }

    /// Whether `stat` may return `outcome` for these arguments.
    open spec fn stat_returns(
        &self,
        path: Seq<char>,
        args: OpStat,
        outcome: Result<RpStat, Error>,
    ) -> bool {
        true
    }

    /// Whether `delete` may return `outcome`.
    open spec fn delete_returns(&self, outcome: Result<(RpDelete, Self::Deleter), Error>) -> bool {
        true
    }

    /// Whether `list` may return `outcome` for these arguments.
    open spec fn list_returns(
        &self,
        path: Seq<char>,
        args: OpList,
        outcome: Result<(RpList, Self::Lister), Error>,
    ) -> bool {
        true
    }

    /// The descriptor of the backend.
    fn info(&self) -> (info: Arc<AccessorInfo>)
        ensures
            self.info_returns(*info),
    ;

    /// Opens the file at `path` for reading.
    fn read(&self, path: &str, args: OpRead) -> (outcome: Result<(RpRead, Self::Reader), Error>)
        ensures
            self.read_returns(path@, args, outcome),
    ;

    /// Opens the file at `path` for writing.
    fn write(&self, path: &str, args: OpWrite) -> (outcome: Result<(RpWrite, Self::Writer), Error>)
        ensures
            self.write_returns(path@, args, outcome),
    ;

    /// Fetches the metadata of the entry at `path`.
    fn stat(&self, path: &str, args: OpStat) -> (outcome: Result<RpStat, Error>)
        ensures
            self.stat_returns(path@, args, outcome),
    ;

    /// Opens a batch of removals.
    fn delete(&self) -> (outcome: Result<(RpDelete, Self::Deleter), Error>)
        ensures
            self.delete_returns(outcome),
    ;

    /// Starts listing the entries under `path`.
    fn list(&self, path: &str, args: OpList) -> (outcome: Result<(RpList, Self::Lister), Error>)
        ensures
            self.list_returns(path@, args, outcome),
    ;
}

/// Something that wraps an accessor into another accessor.
pub trait Layer<A: Access> {
    /// The accessor that comes out.
    type LayeredAccess: Access;

    /// Whether layering `inner` may give `layered`.
    open spec fn layers(&self, inner: A, layered: Self::LayeredAccess) -> bool {
        true
    }

    /// Wraps `inner`.
    fn layer(&self, inner: A) -> (layered: Self::LayeredAccess)
        ensures
            self.layers(inner, layered),
    ;
}

} // verus!
