//! The result type of every pipeline step, and the error taxonomy.
//!
//! A step either succeeds with a value or fails with a classified kind
//! together with the underlying cause of the failure. The cause is preserved
//! unchanged through every propagation so that no error path loses its
//! origin.

use vstd::prelude::*;
use vstd::string::StringExecFns;

verus! {

/// The underlying cause of a failed primitive operation, as the host
/// filesystem reports it.
#[derive(Clone, Copy, Debug, PartialEq, Eq, Structural)]
pub enum IoErr {
    /// The named resource does not exist. The only cause eligible for
    /// recovery (by creating the resource).
    NotFound,
    /// The operation was denied by the host's permission rules.
    PermissionDenied,
    /// Any other failure of the host filesystem.
    Other,
}

/// Which step of the pipeline failed. Every kind is fatal for the current
/// operation: no step is retried automatically.
#[derive(Clone, Copy, Debug, PartialEq, Eq, Structural)]
pub enum FailKind {
    /// Opening the resource failed with a cause other than `NotFound`.
    OpenFailed,
    /// The resource was absent and the attempt to create it failed.
    CreateFailed,
    /// The resource was acquired but its content could not be read.
    ReadFailed,
}

/// The outcome of one fallible pipeline step: either a value, or the failing
/// step's kind together with the cause that the host reported for it.
#[derive(Debug, PartialEq, Eq)]
pub enum OperationOutcome<T> {
    Success(T),
    Failure(FailKind, IoErr),
}

/// The text naming a failed step inside a terminating diagnostic.
pub open spec fn step_text(kind: FailKind) -> Seq<char> {
    match kind {
        FailKind::OpenFailed => "opening the resource"@,
        FailKind::CreateFailed => "creating the resource"@,
        FailKind::ReadFailed => "reading the resource"@,
    }
}

/// The text naming an underlying cause inside a terminating diagnostic.
pub open spec fn cause_text(cause: IoErr) -> Seq<char> {
    match cause {
        IoErr::NotFound => "not found"@,
        IoErr::PermissionDenied => "permission denied"@,
        IoErr::Other => "unexpected host failure"@,
    }
}

/// The full text of a terminating diagnostic: it names the failing step and
/// embeds the original cause.
pub open spec fn fatal_text(kind: FailKind, cause: IoErr) -> Seq<char> {
    "fatal error while "@ + step_text(kind) + ": "@ + cause_text(cause)
}

/// The human-readable name of a failed step.
pub fn step_label(kind: FailKind) -> (r: &'static str)
    ensures
        r@ == step_text(kind),
{
    match kind {
        FailKind::OpenFailed => "opening the resource",
        FailKind::CreateFailed => "creating the resource",
        FailKind::ReadFailed => "reading the resource",
    }
}

/// The human-readable name of an underlying cause.
pub fn cause_label(cause: IoErr) -> (r: &'static str)
    ensures
        r@ == cause_text(cause),
{
    match cause {
        IoErr::NotFound => "not found",
        IoErr::PermissionDenied => "permission denied",
        IoErr::Other => "unexpected host failure",
    }
}

/// Builds the diagnostic that fatal mode terminates with: it names the
/// failing step and embeds the original cause.
pub fn fatal_message(kind: FailKind, cause: IoErr) -> (r: String)
    ensures
        r@ == fatal_text(kind, cause),
{
    let mut msg = String::from_str("fatal error while ");
    msg.append(step_label(kind));
    msg.append(": ");
    msg.append(cause_label(cause));
    proof {
        assert(msg@ =~= fatal_text(kind, cause));
    }
    msg
}

} // verus!
