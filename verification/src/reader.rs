//! Reading the whole content behind an acquired handle, under either of two
//! failure disciplines.
//!
//! In propagating mode a failure handed in is returned unchanged, without
//! touching the filesystem, and a failed read is classified and returned as
//! a value: the caller decides final handling. In fatal mode any failure at
//! any stage asks the host to terminate at once with a diagnostic naming the
//! failing step and the original cause; control must not come back to the
//! caller. The two disciplines are a configuration choice of the caller,
//! not separate pipelines.

use crate::fs_model::{ResourceHandle, SimFs};
use crate::outcome::{fatal_message, fatal_text, FailKind, OperationOutcome};
use vstd::prelude::*;

verus! {

/// The failure discipline a caller chooses for one read operation.
#[derive(Clone, Copy, Debug, PartialEq, Eq, Structural)]
pub enum ReadMode {
    /// Failures are returned to the caller as values.
    Propagating,
    /// Any failure terminates the whole operation with a diagnostic.
    Fatal,
}

/// What the pipeline asks its caller to do after a read under a chosen
/// discipline.
#[derive(Debug, PartialEq, Eq)]
pub enum ReadDisposition {
    /// Hand this outcome back: the operation ran to its propagating end.
    Returned(OperationOutcome<String>),
    /// Terminate at once with this diagnostic, returning no control.
    Terminated(String),
}

/// The relation a propagating read establishes between the filesystem
/// before and after, its input and its result: a failure handed in comes
/// back unchanged with nothing performed, a read failure is classified as
/// `ReadFailed` with its cause preserved, and a successful read yields the
/// exact content of the named resource.
pub open spec fn propagating_read_post(
    pre: SimFs,
    post: SimFs,
    input: OperationOutcome<ResourceHandle>,
    r: OperationOutcome<String>,
) -> bool {
    &&& post.entries@ == pre.entries@
    &&& post.same_faults(pre)
    &&& match input {
        OperationOutcome::Failure(k, c) => r == OperationOutcome::<String>::Failure(k, c) && post
            == pre,
        OperationOutcome::Success(h) => {
            &&& post.calls == pre.calls + 1
            &&& match pre.read_fault {
                Some(c) => r == OperationOutcome::<String>::Failure(FailKind::ReadFailed, c),
                None => r matches OperationOutcome::Success(s) && s@ == pre.content_of(h@),
            }
        },
    }
}

/// The relation a fatal-mode read establishes: any failure, handed in or
/// arising at the read, becomes a termination demand whose diagnostic names
/// the failing step and embeds the original cause; only a fully successful
/// read returns control, with the exact content.
pub open spec fn fatal_read_post(
    pre: SimFs,
    post: SimFs,
    input: OperationOutcome<ResourceHandle>,
    r: ReadDisposition,
) -> bool {
    &&& post.entries@ == pre.entries@
    &&& post.same_faults(pre)
    &&& match input {
        OperationOutcome::Failure(k, c) => r matches ReadDisposition::Terminated(m) && m@
            == fatal_text(k, c) && post == pre,
        OperationOutcome::Success(h) => {
            &&& post.calls == pre.calls + 1
            &&& match pre.read_fault {
                Some(c) => r matches ReadDisposition::Terminated(m) && m@ == fatal_text(
                    FailKind::ReadFailed,
                    c,
                ),
                None => r matches ReadDisposition::Returned(out) && (out matches
                    OperationOutcome::Success(s) && s@ == pre.content_of(h@)),
            }
        },
    }
}

/// Reads the whole content behind the handle under the propagating
/// discipline: a failure handed in is returned unchanged and nothing is
/// performed; otherwise the resource is read whole, the handle is given up
/// either way, and a failed read is returned as `ReadFailed` with its
/// cause.
pub fn read_all(fs: &mut SimFs, input: OperationOutcome<ResourceHandle>) -> (r: OperationOutcome<
    String,
>)
    requires
        old(fs).wf(),
        input matches OperationOutcome::Success(h) ==> old(fs).contains_name(h@),
        old(fs).calls < u64::MAX,
    ensures
        final(fs).wf(),
        propagating_read_post(*old(fs), *final(fs), input, r),
{
    match input {
        OperationOutcome::Failure(kind, cause) => OperationOutcome::Failure(kind, cause),
        OperationOutcome::Success(handle) => match fs.read_to_end(handle) {
            Ok(content) => OperationOutcome::Success(content),
            Err(cause) => OperationOutcome::Failure(FailKind::ReadFailed, cause),
        },
    }
}

/// Reads the whole content behind the handle under the chosen discipline.
/// Propagating mode returns the outcome of [`read_all`]; fatal mode turns
/// every failure into a termination demand carrying the diagnostic of
/// [`fatal_message`], which the host must honour without returning control
/// to the caller.
pub fn read_all_with_mode(
    fs: &mut SimFs,
    input: OperationOutcome<ResourceHandle>,
    mode: ReadMode,
) -> (r: ReadDisposition)
    requires
        old(fs).wf(),
        input matches OperationOutcome::Success(h) ==> old(fs).contains_name(h@),
        old(fs).calls < u64::MAX,
    ensures
        final(fs).wf(),
        mode == ReadMode::Propagating ==> (r matches ReadDisposition::Returned(out)
            && propagating_read_post(*old(fs), *final(fs), input, out)),
        mode == ReadMode::Fatal ==> fatal_read_post(*old(fs), *final(fs), input, r),
{
    match mode {
        ReadMode::Propagating => ReadDisposition::Returned(read_all(fs, input)),
        ReadMode::Fatal => match input {
            OperationOutcome::Failure(kind, cause) => ReadDisposition::Terminated(
                fatal_message(kind, cause),
            ),
            OperationOutcome::Success(handle) => match fs.read_to_end(handle) {
                Ok(content) => ReadDisposition::Returned(OperationOutcome::Success(content)),
                Err(cause) => ReadDisposition::Terminated(
                    fatal_message(FailKind::ReadFailed, cause),
                ),
            },
        },
    }
}

} // verus!
