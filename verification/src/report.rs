//! What is said of an outcome, on which stream, and how long the worker
//! waits afterwards.

use vstd::prelude::*;
use crate::error::{FailureKind, ResolvingError};
use crate::resolver::{outcome_view, OutcomeView, ResolvedResult};

verus! {

/// The wait after a query that got no response, in milliseconds.
pub const BACKOFF_MILLIS: u64 = 400;

/// Where a line goes.
#[derive(Clone, Copy, Debug, PartialEq, Eq, Structural)]
pub enum Stream {
    /// The results of the batch.
    Output,
    /// The failures, kept apart from the results.
    Diagnostic,
}

/// What to write for one outcome, and how long to wait before the next
/// query.
#[derive(Debug, PartialEq, Eq)]
pub struct Report {
    pub stream: Stream,
    pub line: String,
    pub pause_millis: u64,
}

/// The mathematical value of a [`Report`].
#[verifier::ext_equal]
pub struct ReportView {
    pub stream: Stream,
    pub line: Seq<char>,
    pub pause_millis: nat,
}

impl View for Report {
    type V = ReportView;

    open spec fn view(&self) -> ReportView {
        ReportView {
            stream: self.stream,
            line: self.line@,
            pause_millis: self.pause_millis as nat,
        }
    }
}

/// The wait that follows a failure: [`BACKOFF_MILLIS`] where the nameserver
/// did not respond, none where it responded with something of no use.
pub open spec fn pause_after(kind: FailureKind) -> nat {
    if kind == FailureKind::Transport {
        BACKOFF_MILLIS as nat
    } else {
        0
    }
}

/// The wait that follows an outcome: none after a success.
pub open spec fn pause_for(outcome: OutcomeView) -> nat {
    match outcome {
        Ok(_) => 0,
        Err(error) => pause_after(error.kind),
    }
}

/// The report of an outcome for the address and the nameserver that are
/// written as `address` and `server`.
///
/// - A resolved name: `<address> # <name>`, to the output.
/// - No PTR record: `<address>`, to the output.
/// - A failure: `[<server>] Error for <address> -> <message>`, to the
///   diagnostics, with the wait that the kind of failure asks for.
pub open spec fn report_for(
    address: Seq<char>,
    server: Seq<char>,
    outcome: OutcomeView,
) -> ReportView {
    match outcome {
        Ok(resolved) => ReportView {
            stream: Stream::Output,
            line: match resolved.result {
                Some(name) => address + " # "@ + name,
                None => address,
            },
            pause_millis: pause_for(outcome),
        },
        Err(error) => ReportView {
            stream: Stream::Diagnostic,
            line: "["@ + server + "] Error for "@ + address + " -> "@ + error.message,
            pause_millis: pause_for(outcome),
        },
    }
}

/// The wait that follows an outcome, in milliseconds.
pub fn backoff_millis(outcome: &Result<ResolvedResult, ResolvingError>) -> (millis: u64)
    ensures
        millis == pause_for(outcome_view(*outcome)),
{
    match outcome {
        Ok(_) => 0,
        Err(error) => if error.is_transport() {
            BACKOFF_MILLIS
        } else {
            0
        },
    }
}

/// Writes the report of an outcome.
pub fn report(address: &str, server: &str, outcome: &Result<ResolvedResult, ResolvingError>) -> (made:
    Report)
    ensures
        made@ == report_for(address@, server@, outcome_view(*outcome)),
{
    match outcome {
        Ok(resolved) => {
            let mut line = String::from_str(address);
            match &resolved.result {
                Some(name) => {
                    line.append(" # ");
                    line.append(name.as_str());
                },
                None => {},
            }
            Report { stream: Stream::Output, line, pause_millis: 0 }
        },
        Err(error) => {
            let mut line = String::from_str("[");
            line.append(server);
            line.append("] Error for ");
            line.append(address);
            line.append(" -> ");
            line.append(error.message.as_str());
            Report { stream: Stream::Diagnostic, line, pause_millis: backoff_millis(outcome) }
        },
    }
}

} // verus!
