//! The check itself: a declared mode must agree with the shape of the path
//! it is declared for.

use vstd::prelude::*;
use vstd::string::StringExecFns;
use crate::entry::EntryMode;
use crate::error::{context_lookup, Error, ErrorKind, ErrorView};
use crate::info::AccessorInfo;
use crate::ops::Operation;
use crate::path::{is_directory_path, is_directory_shaped};

verus! {

/// The agreement between a declared mode and a path: a directory has a
/// directory-shaped path, a file has not, and an unknown mode agrees with
/// nothing.
pub open spec fn mode_matches_path(mode: EntryMode, path: Seq<char>) -> bool {
    match mode {
        EntryMode::Unknown => false,
        EntryMode::Dir => is_directory_shaped(path),
        EntryMode::File => !is_directory_shaped(path),
    }
}

/// What is wrong with `mode` declared for `path`, in words. Meaningful where
/// the two disagree.
pub open spec fn mismatch_detail(mode: EntryMode, path: Seq<char>) -> Seq<char> {
    match mode {
        EntryMode::Unknown => "metadata is missing an entry mode"@,
        EntryMode::Dir => "path `"@ + path
            + "` was reported as a directory but does not end with `/`"@,
        EntryMode::File => "path `"@ + path + "` was reported as a file but ends with `/`"@,
    }
}

/// The message of an unexpected-response error.
pub open spec fn unexpected_message(scheme: Seq<char>, op: Operation, detail: Seq<char>) -> Seq<
    char,
> {
    "service "@ + scheme + " returned an unexpected "@ + op.spec_name() + " response: "@ + detail
}

/// The key under which the path of the request is recorded. A listing has a
/// listed directory apart from the offending entry; for every other
/// operation the request names the entry itself.
pub open spec fn context_key(op: Operation) -> Seq<char> {
    if op == Operation::List {
        "list_path"@
    } else {
        "context_path"@
    }
}

/// The error that reports an unexpected response.
pub open spec fn unexpected_response_view(
    scheme: Seq<char>,
    op: Operation,
    target_path: Seq<char>,
    context_path: Seq<char>,
    detail: Seq<char>,
) -> ErrorView {
    ErrorView {
        kind: ErrorKind::Unexpected,
        message: unexpected_message(scheme, op, detail),
        operation: Some(op),
        context: seq![("path"@, target_path), (context_key(op), context_path)],
    }
}

/// Builds the error that reports an unexpected response of the service
/// described by `info` to the operation `op`: `target_path` is the entry the
/// response is about, `context_path` the path that was asked for, and
/// `detail` says what is wrong.
pub fn unexpected_response(
    info: &AccessorInfo,
    op: Operation,
    target_path: &str,
    context_path: &str,
    detail: &str,
) -> (err: Error)
    ensures
        err@ == unexpected_response_view(info@.scheme, op, target_path@, context_path@, detail@),
{
    let mut message = String::from_str("service ");
    message.append(info.scheme());
    message.append(" returned an unexpected ");
    message.append(op.name());
    message.append(" response: ");
    message.append(detail);

    let err = Error::new(ErrorKind::Unexpected, message.as_str()).with_operation(op).with_context(
        "path",
        target_path,
    );

    let err = if op == Operation::List {
        err.with_context("list_path", context_path)
    } else {
        err.with_context("context_path", context_path)
    };
    assert(err@.context =~= seq![("path"@, target_path@), (context_key(op), context_path@)]);
    err
}

/// Checks that `mode`, declared for `target_path` in a response to `op`,
/// agrees with the shape of `target_path`. `context_path` is the path that
/// was asked for; it goes into the error, not into the decision.
pub fn sanity_check_path_mode(
    info: &AccessorInfo,
    op: Operation,
    context_path: &str,
    target_path: &str,
    mode: EntryMode,
) -> (checked: Result<(), Error>)
    ensures
        checked is Ok <==> mode_matches_path(mode, target_path@),
        checked matches Err(err) ==> err@ == unexpected_response_view(
            info@.scheme,
            op,
            target_path@,
            context_path@,
            mismatch_detail(mode, target_path@),
        ),
        mode == EntryMode::Unknown ==> checked is Err,
        checked matches Err(err) ==> err@.kind == ErrorKind::Unexpected,
{
    match mode {
        EntryMode::Unknown => Err(
            unexpected_response(
                info,
                op,
                target_path,
                context_path,
                "metadata is missing an entry mode",
            ),
        ),
        EntryMode::Dir => {
            if !is_directory_path(target_path) {
                let mut detail = String::from_str("path `");
                detail.append(target_path);
                detail.append("` was reported as a directory but does not end with `/`");
                Err(unexpected_response(info, op, target_path, context_path, detail.as_str()))
            } else {
                Ok(())
            }
        },
        EntryMode::File => {
            if is_directory_path(target_path) {
                let mut detail = String::from_str("path `");
                detail.append(target_path);
                detail.append("` was reported as a file but ends with `/`");
                Err(unexpected_response(info, op, target_path, context_path, detail.as_str()))
            } else {
                Ok(())
            }
        },
    }
}

/// A declared directory passes the check exactly when its path is
/// directory-shaped.
pub proof fn lemma_directory_agreement(path: Seq<char>)
    ensures
        mode_matches_path(EntryMode::Dir, path) <==> is_directory_shaped(path),
{
}

/// A declared file passes the check exactly when its path is not
/// directory-shaped.
pub proof fn lemma_file_agreement(path: Seq<char>)
    ensures
        mode_matches_path(EntryMode::File, path) <==> !is_directory_shaped(path),
{
}

/// An unknown mode passes the check for no path.
pub proof fn lemma_unknown_rejected(path: Seq<char>)
    ensures
        !mode_matches_path(EntryMode::Unknown, path),
{
}

/// The context of an unexpected-response error always names the offending
/// entry under `path`. The path that was asked for stands under `list_path`
/// when the operation is a listing and under `context_path` otherwise, and
/// the other of the two keys is absent.
pub proof fn lemma_context_keys(
    scheme: Seq<char>,
    op: Operation,
    target_path: Seq<char>,
    context_path: Seq<char>,
    detail: Seq<char>,
)
    ensures
        ({
            let context = unexpected_response_view(
                scheme,
                op,
                target_path,
                context_path,
                detail,
            ).context;
            &&& context_lookup(context, "path"@) == Some(target_path)
            &&& op == Operation::List ==> {
                &&& context_lookup(context, "list_path"@) == Some(context_path)
                &&& context_lookup(context, "context_path"@) is None
            }
            &&& op != Operation::List ==> {
                &&& context_lookup(context, "context_path"@) == Some(context_path)
                &&& context_lookup(context, "list_path"@) is None
            }
        }),
{
    let context = unexpected_response_view(scheme, op, target_path, context_path, detail).context;
    let rest = context.drop_first();
    assert(rest =~= seq![(context_key(op), context_path)]);
    assert(rest.drop_first() =~= Seq::empty());
    // The three keys are told apart by their lengths.
    reveal_strlit("path");
    reveal_strlit("list_path");
    reveal_strlit("context_path");
    assert("path"@.len() == 4 && "list_path"@.len() == 9 && "context_path"@.len() == 12);
    assert(context_lookup(rest.drop_first(), "list_path"@) is None);
    assert(context_lookup(rest.drop_first(), "context_path"@) is None);
    assert(context_lookup(context, "list_path"@) == context_lookup(rest, "list_path"@));
    assert(context_lookup(context, "context_path"@) == context_lookup(rest, "context_path"@));
}

} // verus!
