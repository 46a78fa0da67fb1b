//! The error type shared by backends and the layers around them.

use vstd::prelude::*;
use vstd::string::StringExecFns;
use crate::ops::Operation;

verus! {

/// What went wrong, by category.
#[derive(Clone, Copy, Debug, PartialEq, Eq, Structural)]
pub enum ErrorKind {
    /// The service broke its contract: it answered, but not with anything
    /// the caller can use.
    Unexpected,
    /// The backend does not offer the operation.
    Unsupported,
    /// The path does not exist.
    NotFound,
    /// The caller may not touch the path.
    PermissionDenied,
    /// The path exists already.
    AlreadyExists,
}

/// An error: a kind, a message for humans, the operation that failed, and
/// key/value pairs that locate the failure.
#[derive(Clone, Debug, PartialEq, Eq)]
pub struct Error {
    kind: ErrorKind,
    message: String,
    operation: Option<Operation>,
    context: Vec<(String, String)>,
}

/// An [`Error`] as a mathematical value.
pub struct ErrorView {
    /// The category.
    pub kind: ErrorKind,
    /// The message.
    pub message: Seq<char>,
    /// The operation during which the error arose, once one was attached.
    pub operation: Option<Operation>,
    /// The context pairs, in the order in which they were attached.
    pub context: Seq<(Seq<char>, Seq<char>)>,
}

/// The context pairs as sequences of characters.
pub open spec fn context_view(context: Seq<(String, String)>) -> Seq<(Seq<char>, Seq<char>)> {
    Seq::new(context.len(), |i: int| (context[i].0@, context[i].1@))
}

/// The value attached to `key`: that of the first pair with this key.
pub open spec fn context_lookup(context: Seq<(Seq<char>, Seq<char>)>, key: Seq<char>) -> Option<
    Seq<char>,
>
    decreases context.len(),
{
    if context.len() == 0 {
        None
    } else if context[0].0 == key {
        Some(context[0].1)
    } else {
        context_lookup(context.drop_first(), key)
    }
}

impl View for Error {
    type V = ErrorView;

    closed spec fn view(&self) -> ErrorView {
        ErrorView {
            kind: self.kind,
            message: self.message@,
            operation: self.operation,
            context: context_view(self.context@),
        }
    }
}

impl Error {
    /// An error of the given kind and message, with no operation and no
    /// context attached.
    pub fn new(kind: ErrorKind, message: &str) -> (err: Error)
        ensures
            err@ == (ErrorView {
                kind,
                message: message@,
                operation: None,
                context: Seq::empty(),
            }),
    {
        let err = Error { kind, message: message.to_owned(), operation: None, context: Vec::new() };
        assert(err@.context =~= Seq::empty());
        err
    }

    /// The same error, said to have arisen during `operation`.
    pub fn with_operation(self, operation: Operation) -> (err: Error)
        ensures
            err@ == (ErrorView { operation: Some(operation), ..self@ }),
    {
        Error {
            kind: self.kind,
            message: self.message,
            operation: Some(operation),
            context: self.context,
        }
    }

    /// The same error with the pair `(key, value)` added after the pairs it
    /// already carries.
    pub fn with_context(self, key: &str, value: &str) -> (err: Error)
        ensures
            err@ == (ErrorView { context: self@.context.push((key@, value@)), ..self@ }),
    {
        let mut context = self.context;
        context.push((key.to_owned(), value.to_owned()));
        let err = Error {
            kind: self.kind,
            message: self.message,
            operation: self.operation,
            context,
        };
        assert(err@.context =~= self@.context.push((key@, value@)));
        err
    }

    /// The category of the error.
    pub fn kind(&self) -> (kind: ErrorKind)
        ensures
            kind == self@.kind,
    {
        self.kind
    }

    /// The message of the error.
    pub fn message(&self) -> (message: &str)
        ensures
            message@ == self@.message,
    {
        self.message.as_str()
    }

    /// The operation during which the error arose.
    pub fn operation(&self) -> (operation: Option<Operation>)
        ensures
            operation == self@.operation,
    {
        self.operation
    }

    /// The value attached to `key`, if the context holds the key.
    pub fn context_value(&self, key: &str) -> (value: Option<&str>)
        ensures
            match value {
                Some(v) => context_lookup(self@.context, key@) == Some(v@),
                None => context_lookup(self@.context, key@) is None,
            },
    {
        let wanted = String::from_str(key);
        let n: usize = self.context.len();
        let mut i: usize = 0;
        assert(self@.context.skip(0) =~= self@.context);
        while i < n
            invariant
                i <= n,
                n == self.context@.len(),
                wanted@ == key@,
                context_lookup(self@.context, key@) == context_lookup(
                    self@.context.skip(i as int),
                    key@,
                ),
            decreases n - i,
        {
            let ghost rest = self@.context.skip(i as int);
            assert(rest[0] == self@.context[i as int]);
            assert(rest.drop_first() =~= self@.context.skip(i + 1));
            if self.context[i].0 == wanted {
                return Some(self.context[i].1.as_str());
            }
            i += 1;
        }
        assert(self@.context.skip(n as int).len() == 0);
        None
    }
}

} // verus!
