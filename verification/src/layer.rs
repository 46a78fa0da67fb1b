//! The layer: an accessor around an accessor that lets no response through
//! whose declared mode disagrees with its path.

use std::sync::Arc;
use vstd::prelude::*;
use crate::access::{Access, Layer, List};
use crate::check::mode_matches_path;
use crate::entry::Entry;
use crate::error::{context_lookup, Error, ErrorKind};
use crate::info::AccessorInfo;
use crate::intercept::{checked_entry, checked_stat, entry_checked, lemma_fail_fast, stat_checked};
use crate::ops::{
    OpList, OpRead, OpStat, OpWrite, Operation, RpDelete, RpList, RpRead, RpStat, RpWrite,
};

verus! {

/// Another handle on the same descriptor.
///
/// Calls `Arc::clone`, which vstd does not specify. Trusted: the new handle
/// points at the value the old one points at.
#[verifier::external_body]
fn share(info: &Arc<AccessorInfo>) -> (shared: Arc<AccessorInfo>)
    ensures
        *shared == **info,
{
    Arc::clone(info)
}

/// Puts a [`SanityCheckAccessor`] around an accessor, to guard against
/// responses that break the rule that the shape of a path and the declared
/// mode agree.
#[derive(Default)]
pub struct SanityCheckLayer;

/// An accessor that checks what the accessor inside it answers to `stat`
/// and `list`, and passes every other operation through.
pub struct SanityCheckAccessor<A: Access> {
    info: Arc<AccessorInfo>,
    inner: A,
}

/// A [`SanityCheckAccessor`] as a mathematical value.
pub struct SanityCheckAccessorView<A> {
    /// The descriptor taken from the inner accessor when the layer was put
    /// around it.
    pub info: AccessorInfo,
    /// The accessor inside.
    pub inner: A,
}

/// A stream of entries that checks each entry the stream inside it yields.
pub struct SanityCheckLister<L> {
    info: Arc<AccessorInfo>,
    list_path: String,
    inner: L,
}

/// A [`SanityCheckLister`] as a mathematical value.
pub struct SanityCheckListerView<L> {
    /// The descriptor of the backend that is being listed.
    pub info: AccessorInfo,
    /// The directory that is being listed.
    pub list_path: Seq<char>,
    /// The stream inside.
    pub inner: L,
}

impl<A: Access> View for SanityCheckAccessor<A> {
    type V = SanityCheckAccessorView<A>;

    closed spec fn view(&self) -> SanityCheckAccessorView<A> {
        SanityCheckAccessorView { info: *self.info, inner: self.inner }
    }
}

impl<L> View for SanityCheckLister<L> {
    type V = SanityCheckListerView<L>;

    closed spec fn view(&self) -> SanityCheckListerView<L> {
        SanityCheckListerView { info: *self.info, list_path: self.list_path@, inner: self.inner }
    }
}

/// What becomes of `response`, the inner accessor's answer to `list` on
/// `path`: a failure passes through, and a stream is wrapped into one that
/// checks its entries against `path`.
pub open spec fn list_wrapped<L>(
    info: AccessorInfo,
    path: Seq<char>,
    response: Result<(RpList, L), Error>,
    outcome: Result<(RpList, SanityCheckLister<L>), Error>,
) -> bool {
    match response {
        Err(err) => outcome == Err::<(RpList, SanityCheckLister<L>), Error>(err),
        Ok((rp, lister)) => outcome matches Ok((rp_out, lister_out)) && rp_out == rp
            && lister_out@ == (SanityCheckListerView { info, list_path: path, inner: lister }),
    }
}

impl<L> SanityCheckLister<L> {
    /// A stream that checks the entries of `inner`, which lists `list_path`
    /// on the backend described by `info`.
    pub fn new(info: Arc<AccessorInfo>, list_path: &str, inner: L) -> (lister: Self)
        ensures
            lister@ == (SanityCheckListerView { info: *info, list_path: list_path@, inner }),
    {
        Self { info, list_path: list_path.to_owned(), inner }
    }
}

impl<L: List> List for SanityCheckLister<L> {
    /// The stream inside moves by one step, and what it yielded is checked:
    /// see [`entry_checked`]. The descriptor and the listed path stay.
    open spec fn yields(&self, after: &Self, outcome: Result<Option<Entry>, Error>) -> bool {
        &&& after@.info == self@.info
        &&& after@.list_path == self@.list_path
        &&& exists|yielded: Result<Option<Entry>, Error>|
            #[trigger] self@.inner.yields(&after@.inner, yielded) && entry_checked(
                self@.info,
                self@.list_path,
                yielded,
                outcome,
            )
    }

    /// Pulls one entry from the stream inside and checks it against the
    /// listed directory. Nothing is buffered, skipped or reordered.
    ///
    /// After the end of the stream or an error the stream is done; a caller
    /// that pulls again gets whatever the stream inside then yields.
    fn next(&mut self) -> (outcome: Result<Option<Entry>, Error>)
        ensures
            outcome matches Ok(Some(entry)) ==> mode_matches_path(entry.spec_mode(), entry@.path),
    {
        let yielded = self.inner.next();
        assert(old(self)@.inner.yields(&self@.inner, yielded));
        checked_entry(&self.info, self.list_path.as_str(), yielded)
    }
}

impl<A: Access> Access for SanityCheckAccessor<A> {
    type Reader = A::Reader;

    type Writer = A::Writer;

    type Lister = SanityCheckLister<A::Lister>;

    type Deleter = A::Deleter;

    /// The descriptor is the one taken when the layer was put on.
    open spec fn info_returns(&self, info: AccessorInfo) -> bool {
        info == self@.info
    }

    /// Whatever the accessor inside may return for the same arguments.
    open spec fn read_returns(
        &self,
        path: Seq<char>,
        args: OpRead,
        outcome: Result<(RpRead, Self::Reader), Error>,
    ) -> bool {
        self@.inner.read_returns(path, args, outcome)
    }

    /// Whatever the accessor inside may return for the same arguments.
    open spec fn write_returns(
        &self,
        path: Seq<char>,
        args: OpWrite,
        outcome: Result<(RpWrite, Self::Writer), Error>,
    ) -> bool {
        self@.inner.write_returns(path, args, outcome)
    }

    /// Some answer that the accessor inside may give for the same
    /// arguments, checked: see [`stat_checked`].
    open spec fn stat_returns(
        &self,
        path: Seq<char>,
        args: OpStat,
        outcome: Result<RpStat, Error>,
    ) -> bool {
        exists|response: Result<RpStat, Error>|
            #[trigger] self@.inner.stat_returns(path, args, response) && stat_checked(
                self@.info,
                path,
                response,
                outcome,
            )
    }

    /// Whatever the accessor inside may return.
    open spec fn delete_returns(&self, outcome: Result<(RpDelete, Self::Deleter), Error>) -> bool {
        self@.inner.delete_returns(outcome)
    }

    /// Some answer that the accessor inside may give for the same
    /// arguments, with the stream wrapped: see [`list_wrapped`].
    open spec fn list_returns(
        &self,
        path: Seq<char>,
        args: OpList,
        outcome: Result<(RpList, Self::Lister), Error>,
    ) -> bool {
        exists|response: Result<(RpList, A::Lister), Error>|
            #[trigger] self@.inner.list_returns(path, args, response) && list_wrapped(
                self@.info,
                path,
                response,
                outcome,
            )
    }

    /// The descriptor taken from the accessor inside when the layer was
    /// put on; the accessor inside is not asked again.
    fn info(&self) -> (info: Arc<AccessorInfo>) {
        share(&self.info)
    }

    /// Passed through.
    fn read(&self, path: &str, args: OpRead) -> (outcome: Result<(RpRead, Self::Reader), Error>) {
        self.inner.read(path, args)
    }

    /// Passed through.
    fn write(&self, path: &str, args: OpWrite) -> (outcome: Result<(RpWrite, Self::Writer), Error>) {
        self.inner.write(path, args)
    }

    /// Asks the accessor inside and checks the mode it reports against
    /// `path`. A reply that passes is returned as it came; one that does not
    /// is dropped for the error that reports it.
    fn stat(&self, path: &str, args: OpStat) -> (outcome: Result<RpStat, Error>)
        ensures
            outcome matches Ok(rp) ==> mode_matches_path(rp.spec_metadata().spec_mode(), path@),
    {
        let response = self.inner.stat(path, args);
        assert(self@.inner.stat_returns(path@, args, response));
        checked_stat(&self.info, path, response)
    }

    /// Passed through.
    fn delete(&self) -> (outcome: Result<(RpDelete, Self::Deleter), Error>) {
        self.inner.delete()
    }

    /// Asks the accessor inside and wraps the stream it hands out, so that
    /// each entry is checked as it is pulled.
    fn list(&self, path: &str, args: OpList) -> (outcome: Result<(RpList, Self::Lister), Error>) {
        let response = self.inner.list(path, args);
        assert(self@.inner.list_returns(path@, args, response));
        match response {
            Ok((rp, lister)) => Ok((rp, SanityCheckLister::new(share(&self.info), path, lister))),
            Err(err) => Err(err),
        }
    }
}

impl<A: Access> SanityCheckAccessor<A> {
    /// The accessor inside.
    pub fn inner(&self) -> (inner: &A)
        ensures
            *inner == self@.inner,
    {
        &self.inner
    }
}

impl<A: Access> Layer<A> for SanityCheckLayer {
    type LayeredAccess = SanityCheckAccessor<A>;

    /// The accessor goes inside untouched, and the descriptor kept beside
    /// it is one that the accessor gave.
    open spec fn layers(&self, inner: A, layered: SanityCheckAccessor<A>) -> bool {
        &&& layered@.inner == inner
        &&& inner.info_returns(layered@.info)
    }

    /// Asks `inner` for its descriptor, once, and wraps it.
    fn layer(&self, inner: A) -> (layered: SanityCheckAccessor<A>) {
        let info = inner.info();
        SanityCheckAccessor { info, inner }
    }
}

/// The layer is transparent to well-formed replies. If every answer that the
/// accessor inside may give to `stat` on `path` is a reply whose mode agrees
/// with `path`, then whatever the layer returns is one of those answers, as
/// the accessor inside gave it.
pub proof fn lemma_stat_transparent<A: Access>(
    layered: SanityCheckAccessor<A>,
    path: Seq<char>,
    args: OpStat,
    outcome: Result<RpStat, Error>,
)
    requires
        layered.stat_returns(path, args, outcome),
        forall|response: Result<RpStat, Error>| #[trigger]
            layered@.inner.stat_returns(path, args, response) ==> (response matches Ok(rp)
                && mode_matches_path(rp.spec_metadata().spec_mode(), path)),
    ensures
        layered@.inner.stat_returns(path, args, outcome),
{
}

/// Whether `states` and `outcomes` record successive pulls from a stream:
/// pull `i` finds the stream as `states[i]`, leaves it as `states[i + 1]`
/// and returns `outcomes[i]`.
pub open spec fn is_run<L: List>(states: Seq<L>, outcomes: Seq<Result<Option<Entry>, Error>>) -> bool {
    &&& states.len() == outcomes.len() + 1
    &&& forall|i: int|
        0 <= i < outcomes.len() ==> states[i].yields(&states[i + 1], #[trigger] outcomes[i])
}

/// Whether, in a run of a checked stream, the stream inside may yield
/// `yielded` at pull `i`.
pub open spec fn inside_yields<L: List>(
    states: Seq<SanityCheckLister<L>>,
    i: int,
    yielded: Result<Option<Entry>, Error>,
) -> bool {
    states[i]@.inner.yields(&states[i + 1]@.inner, yielded)
}

/// Throughout a run a checked stream lists the same directory on the same
/// backend.
pub proof fn lemma_run_keeps_listed_path<L: List>(
    states: Seq<SanityCheckLister<L>>,
    outcomes: Seq<Result<Option<Entry>, Error>>,
    i: int,
)
    requires
        is_run(states, outcomes),
        0 <= i < states.len(),
    ensures
        states[i]@.list_path == states[0]@.list_path,
        states[i]@.info == states[0]@.info,
    decreases i,
{
    if i > 0 {
        lemma_run_keeps_listed_path(states, outcomes, i - 1);
        assert(states[i - 1].yields(&states[i - 1 + 1], outcomes[i - 1]));
    }
}

/// A checked stream fails fast. Take a run of a checked stream in which the
/// stream inside yields `entries[0]`, `entries[1]`, ... up to `entries[bad]`,
/// the first whose mode disagrees with its path. Then the checked stream
/// returns every entry before `entries[bad]` as it is, and at pull `bad` an
/// unexpected-response error that names `entries[bad]` under `path` and the
/// listed directory under `list_path`.
pub proof fn lemma_stream_fails_fast<L: List>(
    states: Seq<SanityCheckLister<L>>,
    outcomes: Seq<Result<Option<Entry>, Error>>,
    entries: Seq<Entry>,
    bad: int,
)
    requires
        is_run(states, outcomes),
        0 <= bad < entries.len(),
        bad < outcomes.len(),
        forall|i: int, yielded: Result<Option<Entry>, Error>|
            0 <= i <= bad && #[trigger] inside_yields(states, i, yielded) ==> yielded == Ok::<
                Option<Entry>,
                Error,
            >(Some(entries[i])),
        forall|i: int|
            0 <= i < bad ==> mode_matches_path(
                (#[trigger] entries[i]).spec_mode(),
                entries[i]@.path,
            ),
        !mode_matches_path(entries[bad].spec_mode(), entries[bad]@.path),
    ensures
        forall|i: int|
            0 <= i < bad ==> #[trigger] outcomes[i] == Ok::<Option<Entry>, Error>(
                Some(entries[i]),
            ),
        outcomes[bad] matches Err(err) && {
            &&& err@.kind == ErrorKind::Unexpected
            &&& err@.operation == Some(Operation::List)
            &&& context_lookup(err@.context, "path"@) == Some(entries[bad]@.path)
            &&& context_lookup(err@.context, "list_path"@) == Some(states[0]@.list_path)
        },
{
    let info = states[0]@.info;
    let list_path = states[0]@.list_path;
    assert forall|i: int| 0 <= i <= bad implies entry_checked(
        info,
        list_path,
        Ok(Some(entries[i])),
        #[trigger] outcomes[i],
    ) by {
        lemma_run_keeps_listed_path(states, outcomes, i);
        assert(states[i].yields(&states[i + 1], outcomes[i]));
        let yielded = choose|yielded: Result<Option<Entry>, Error>|
            #[trigger] states[i]@.inner.yields(&states[i + 1]@.inner, yielded) && entry_checked(
                states[i]@.info,
                states[i]@.list_path,
                yielded,
                outcomes[i],
            );
        assert(inside_yields(states, i, yielded));
    }
    lemma_fail_fast(info, list_path, entries, bad, outcomes);
}

} // verus!
