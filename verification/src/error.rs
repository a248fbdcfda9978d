//! What can go wrong: in the configuration of a run, and in one resolution.

use vstd::prelude::*;

verus! {

/// A fault in the configuration of a run. Nothing is resolved once one is
/// found.
#[derive(Clone, Copy, Debug, PartialEq, Eq, Structural)]
pub enum ConfigError {
    /// The list of nameserver endpoints is empty.
    NoEndpoints,
}

/// Why a resolution failed.
#[derive(Clone, Copy, Debug, PartialEq, Eq, Structural)]
pub enum FailureKind {
    /// The query got no response: the connection failed, timed out or broke.
    Transport,
    /// The first answer is a record of a type that resolution has no use for.
    UnexpectedRecord,
    /// The first answer holds no data that could be decoded.
    EmptyRecord,
    /// The answers redirected more often than resolution is willing to follow.
    ChainTooLong,
}

/// The failure of one resolution. It is reported and never ends a run.
#[derive(Clone, Debug, PartialEq, Eq)]
pub struct ResolvingError {
    pub kind: FailureKind,
    pub message: String,
}

/// The mathematical value of a [`ResolvingError`].
#[verifier::ext_equal]
pub struct ResolvingErrorView {
    pub kind: FailureKind,
    pub message: Seq<char>,
}

impl View for ResolvingError {
    type V = ResolvingErrorView;

    open spec fn view(&self) -> ResolvingErrorView {
        ResolvingErrorView { kind: self.kind, message: self.message@ }
    }
}

/// The message of a query that got no response.
pub open spec fn query_error_text(name: Seq<char>, cause: Seq<char>) -> Seq<char> {
    "Query error for ("@ + name + "): "@ + cause
}

/// The message of a first answer of an unexpected type.
pub open spec fn unexpected_text(data: Seq<char>, name: Seq<char>) -> Seq<char> {
    "Unexpected result ("@ + data + ") from: "@ + name
}

/// The message of a first answer without data.
pub open spec fn empty_text(name: Seq<char>) -> Seq<char> {
    "Weird empty result from: "@ + name
}

/// The message of a chain of redirections that was given up at `name`.
pub open spec fn chain_text(name: Seq<char>) -> Seq<char> {
    "Too many CNAME redirections at: "@ + name
}

impl ResolvingError {
    /// The failure of the query for `name`, with the client's description of
    /// it.
    pub fn transport(name: &str, cause: &str) -> (error: ResolvingError)
        ensures
            error@ == (ResolvingErrorView {
                kind: FailureKind::Transport,
                message: query_error_text(name@, cause@),
            }),
    {
        let mut message = String::from_str("Query error for (");
        message.append(name);
        message.append("): ");
        message.append(cause);
        ResolvingError { kind: FailureKind::Transport, message }
    }

    /// The failure on a first answer for `name` that is neither a PTR nor a
    /// CNAME record; `data` is what it holds.
    pub fn unexpected_record(data: &str, name: &str) -> (error: ResolvingError)
        ensures
            error@ == (ResolvingErrorView {
                kind: FailureKind::UnexpectedRecord,
                message: unexpected_text(data@, name@),
            }),
    {
        let mut message = String::from_str("Unexpected result (");
        message.append(data);
        message.append(") from: ");
        message.append(name);
        ResolvingError { kind: FailureKind::UnexpectedRecord, message }
    }

    /// The failure on a first answer for `name` that holds no data.
    pub fn empty_record(name: &str) -> (error: ResolvingError)
        ensures
            error@ == (ResolvingErrorView {
                kind: FailureKind::EmptyRecord,
                message: empty_text(name@),
            }),
    {
        let mut message = String::from_str("Weird empty result from: ");
        message.append(name);
        ResolvingError { kind: FailureKind::EmptyRecord, message }
    }

    /// The failure of a chain of redirections that is given up at `name`.
    pub fn chain_too_long(name: &str) -> (error: ResolvingError)
        ensures
            error@ == (ResolvingErrorView {
                kind: FailureKind::ChainTooLong,
                message: chain_text(name@),
            }),
    {
        let mut message = String::from_str("Too many CNAME redirections at: ");
        message.append(name);
        ResolvingError { kind: FailureKind::ChainTooLong, message }
    }

    /// The message of the failure, as it is shown to a reader.
    pub fn describe(&self) -> (text: String)
        ensures
            text@ == self@.message,
    {
        self.message.clone()
    }

    /// Whether the failure is one of the nameserver or the way to it, rather
    /// than one of what it answered.
    pub fn is_transport(&self) -> (yes: bool)
        ensures
            yes == (self@.kind == FailureKind::Transport),
    {
        self.kind == FailureKind::Transport
    }
}

} // verus!
