//! The two points at which responses are checked: the reply to `stat`, and
//! each entry that a listing yields.

use vstd::prelude::*;
use crate::check::{
    lemma_context_keys, mismatch_detail, mode_matches_path, sanity_check_path_mode,
    unexpected_response_view,
};
use crate::entry::Entry;
use crate::error::{context_lookup, Error, ErrorKind};
use crate::info::AccessorInfo;
use crate::ops::{Operation, RpStat};

verus! {

/// What becomes of `response`, the backend's answer to `stat` on `path`:
/// a failure passes through as it is, so does a reply whose mode agrees with
/// `path`, and any other reply is replaced by the error that reports it.
pub open spec fn stat_checked(
    info: AccessorInfo,
    path: Seq<char>,
    response: Result<RpStat, Error>,
    outcome: Result<RpStat, Error>,
) -> bool {
    match response {
        Err(_) => outcome == response,
        Ok(rp) => {
            let mode = rp.spec_metadata().spec_mode();
            if mode_matches_path(mode, path) {
                outcome == response
            } else {
                outcome matches Err(err) && err@ == unexpected_response_view(
                    info@.scheme,
                    Operation::Stat,
                    path,
                    path,
                    mismatch_detail(mode, path),
                )
            }
        },
    }
}

/// What becomes of `yielded`, the next thing a listing of `list_path` gave:
/// a failure and the end of the stream pass through as they are, so does an
/// entry whose mode agrees with its path, and any other entry is replaced by
/// the error that reports it.
pub open spec fn entry_checked(
    info: AccessorInfo,
    list_path: Seq<char>,
    yielded: Result<Option<Entry>, Error>,
    outcome: Result<Option<Entry>, Error>,
) -> bool {
    match yielded {
        Err(_) => outcome == yielded,
        Ok(None) => outcome == yielded,
        Ok(Some(entry)) => {
            if mode_matches_path(entry.spec_mode(), entry@.path) {
                outcome == yielded
            } else {
                outcome matches Err(err) && err@ == unexpected_response_view(
                    info@.scheme,
                    Operation::List,
                    entry@.path,
                    list_path,
                    mismatch_detail(entry.spec_mode(), entry@.path),
                )
            }
        },
    }
}

/// Checks the backend's answer to `stat` on `path` and hands it on.
pub fn checked_stat(info: &AccessorInfo, path: &str, response: Result<RpStat, Error>) -> (outcome:
    Result<RpStat, Error>)
    ensures
        stat_checked(*info, path@, response, outcome),
        response matches Ok(rp) && mode_matches_path(rp.spec_metadata().spec_mode(), path@)
            ==> outcome == response,
        outcome matches Ok(rp) ==> mode_matches_path(rp.spec_metadata().spec_mode(), path@),
{
    match response {
        Ok(rp) => {
            match sanity_check_path_mode(info, Operation::Stat, path, path, rp.metadata().mode()) {
                Ok(()) => Ok(rp),
                Err(err) => Err(err),
            }
        },
        Err(err) => Err(err),
    }
}

/// Checks the next thing that a listing of `list_path` gave and hands it on.
pub fn checked_entry(
    info: &AccessorInfo,
    list_path: &str,
    yielded: Result<Option<Entry>, Error>,
) -> (outcome: Result<Option<Entry>, Error>)
    ensures
        entry_checked(*info, list_path@, yielded, outcome),
        outcome matches Ok(Some(entry)) ==> mode_matches_path(entry.spec_mode(), entry@.path),
{
    match yielded {
        Ok(Some(entry)) => {
            match sanity_check_path_mode(
                info,
                Operation::List,
                list_path,
                entry.path(),
                entry.mode(),
            ) {
                Ok(()) => Ok(Some(entry)),
                Err(err) => Err(err),
            }
        },
        Ok(None) => Ok(None),
        Err(err) => Err(err),
    }
}

/// A checked stream fails fast. Let the stream inside yield `entries` in
/// order, let `entries[bad]` be the first whose mode disagrees with its
/// path, and let `outcomes` be what the checked stream gives for them. Then
/// every entry before `entries[bad]` comes out as it went in, and in place
/// of `entries[bad]` comes an unexpected-response error that names it under
/// `path` and the listed directory under `list_path`.
pub proof fn lemma_fail_fast(
    info: AccessorInfo,
    list_path: Seq<char>,
    entries: Seq<Entry>,
    bad: int,
    outcomes: Seq<Result<Option<Entry>, Error>>,
)
    requires
        0 <= bad < entries.len(),
        bad < outcomes.len(),
        forall|i: int|
            0 <= i < bad ==> mode_matches_path(
                (#[trigger] entries[i]).spec_mode(),
                entries[i]@.path,
            ),
        !mode_matches_path(entries[bad].spec_mode(), entries[bad]@.path),
        forall|i: int|
            0 <= i <= bad ==> entry_checked(
                info,
                list_path,
                Ok(Some(entries[i])),
                #[trigger] outcomes[i],
            ),
    ensures
        forall|i: int|
            0 <= i < bad ==> #[trigger] outcomes[i] == Ok::<Option<Entry>, Error>(
                Some(entries[i]),
            ),
        outcomes[bad] matches Err(err) && {
            &&& err@.kind == ErrorKind::Unexpected
            &&& err@.operation == Some(Operation::List)
            &&& context_lookup(err@.context, "path"@) == Some(entries[bad]@.path)
            &&& context_lookup(err@.context, "list_path"@) == Some(list_path)
        },
{
    let entry = entries[bad];
    lemma_context_keys(
        info@.scheme,
        Operation::List,
        entry@.path,
        list_path,
        mismatch_detail(entry.spec_mode(), entry@.path),
    );
}

} // verus!
