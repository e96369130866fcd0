//! Acquiring a readable handle to a named resource, creating it when absent.
//!
//! Exactly one recovery path exists: when the open fails because the
//! resource is absent, the opener tries to create it empty. Every other
//! failure, and a failed creation, is classified as fatal for the operation
//! and handed on with its original cause.

use crate::fs_model::{ResourceHandle, SimFs};
use crate::outcome::{FailKind, IoErr, OperationOutcome};
use vstd::prelude::*;

verus! {

/// Whether a failed open may be recovered from by creating the resource.
/// An absent resource is the only recoverable cause.
pub fn recoverable(cause: IoErr) -> (r: bool)
    ensures
        r == (cause == IoErr::NotFound),
{
    match cause {
        IoErr::NotFound => true,
        IoErr::PermissionDenied => false,
        IoErr::Other => false,
    }
}

/// Attempts to acquire a readable handle to the named resource; an absent
/// resource is created empty, any other failure is fatal.
///
/// An existing readable resource is opened without mutating its content; an
/// existing unreadable one yields `OpenFailed` with the denial as cause. An
/// absent resource is created empty and readable unless creation is denied,
/// in which case nothing is mutated and the result is `CreateFailed` with
/// the original cause. No other resource is ever touched, and no step is
/// retried.
pub fn open_or_create(fs: &mut SimFs, name: &String) -> (r: OperationOutcome<ResourceHandle>)
    requires
        old(fs).wf(),
        old(fs).calls + 2 <= u64::MAX,
    ensures
        final(fs).wf(),
        final(fs).same_faults(*old(fs)),
        old(fs).contains_name(name@) && old(fs).readable_of(name@) ==> (r matches
            OperationOutcome::Success(h) && h@ == name@)
            && final(fs).entries@ == old(fs).entries@
            && final(fs).calls == old(fs).calls + 1,
        old(fs).contains_name(name@) && !old(fs).readable_of(name@) ==> r == OperationOutcome::<
            ResourceHandle,
        >::Failure(FailKind::OpenFailed, IoErr::PermissionDenied)
            && final(fs).entries@ == old(fs).entries@
            && final(fs).calls == old(fs).calls + 1,
        !old(fs).contains_name(name@) && old(fs).create_fault is None ==> (r matches
            OperationOutcome::Success(h) && h@ == name@)
            && final(fs).contains_name(name@)
            && final(fs).content_of(name@) == Seq::<char>::empty()
            && final(fs).readable_of(name@)
            && final(fs).entries@.len() == old(fs).entries@.len() + 1
            && final(fs).calls == old(fs).calls + 2,
        !old(fs).contains_name(name@) ==> (old(fs).create_fault matches Some(c) ==> r
            == OperationOutcome::<ResourceHandle>::Failure(FailKind::CreateFailed, c)
            && final(fs).entries@ == old(fs).entries@
            && final(fs).calls == old(fs).calls + 2),
        forall|n: Seq<char>|
            n != name@ ==> #[trigger] final(fs).contains_name(n) == old(fs).contains_name(n),
        forall|n: Seq<char>|
            n != name@ && old(fs).contains_name(n) ==> #[trigger] final(fs).content_of(n) == old(
                fs,
            ).content_of(n) && final(fs).readable_of(n) == old(fs).readable_of(n),
        r is Success <==> (old(fs).contains_name(name@) && old(fs).readable_of(name@)) || (!old(
            fs,
        ).contains_name(name@) && old(fs).create_fault is None),
{
    match fs.open(name) {
        Ok(h) => OperationOutcome::Success(h),
        Err(cause) => {
            if recoverable(cause) {
                match fs.create(name) {
                    Ok(h) => OperationOutcome::Success(h),
                    Err(denied) => OperationOutcome::Failure(FailKind::CreateFailed, denied),
                }
            } else {
                OperationOutcome::Failure(FailKind::OpenFailed, cause)
            }
        },
    }
}

} // verus!
