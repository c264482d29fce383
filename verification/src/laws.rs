//! The engine's guarantees, stated once over every call.
//!
//! Each law quantifies over all descriptors and all observed outcomes: it
//! holds for any dispatcher result that meets the dispatch contracts, and so
//! for every implementation of the traits in this crate.

use vstd::prelude::*;
use vstd::utf8::encode_utf8;

use crate::call::{TransportValue, WrapInfo};
use crate::error::{Error, PanicPayload};
use crate::handler::{wrap_behaves, wrap_sync_behaves};
use crate::outcome::{DispatchResult, Notification, PrepareOutcome, SyncOutcome, TaskOutcome};
use crate::sync_return::WireSyncReturnStruct;

verus! {

/// How many terminal (success-or-failure) notifications one call action
/// delivers.  A stream value is not terminal.
pub open spec fn terminal_notification_count(r: DispatchResult) -> nat {
    match r {
        DispatchResult::Notify(_, n) => if n is StreamValue {
            0nat
        } else {
            1nat
        },
        DispatchResult::Silent => 0nat,
        DispatchResult::Fatal(_) => 0nat,
        DispatchResult::Dropped => 0nat,
    }
}

/// A normal-mode call whose task succeeds delivers exactly one notification
/// on its own channel: the success, carrying the converted result — never a
/// failure.
pub proof fn lemma_normal_success_exactly_one(
    info: WrapInfo,
    v: TransportValue,
    r: DispatchResult,
)
    requires
        info.well_formed(),
        info.mode is Normal,
        wrap_behaves(info, PrepareOutcome::Prepared(TaskOutcome::Success(v)), r),
    ensures
        r == DispatchResult::Notify(info.port->0, Notification::Success(v)),
        terminal_notification_count(r) == 1,
{
}

/// A call (any asynchronous mode) whose task raises an ordinary failure
/// delivers exactly one failure notification, whose envelope reads code
/// `"RESULT_ERROR"` and, as its message, the failure's formatted diagnostic.
pub proof fn lemma_ordinary_failure_notification(info: WrapInfo, diag: String, r: DispatchResult)
    requires
        info.well_formed(),
        !(info.mode is Sync),
        wrap_behaves(
            info,
            PrepareOutcome::Prepared(TaskOutcome::Failure(Error::ResultError(diag))),
            r,
        ),
    ensures
        r == DispatchResult::Notify(
            info.port->0,
            Notification::Failure(Error::ResultError(diag)),
        ),
        Error::ResultError(diag).code_spec() == "RESULT_ERROR"@,
        Error::ResultError(diag).message_spec() == diag@,
        terminal_notification_count(r) == 1,
{
}

/// A synchronous call whose task raises an ordinary failure produces exactly
/// one envelope: not a success, its buffer encoding
/// `"RESULT_ERROR: <diagnostic>"`.
pub proof fn lemma_ordinary_failure_sync_envelope(
    info: WrapInfo,
    diag: String,
    r: WireSyncReturnStruct,
)
    requires
        info.mode is Sync,
        wrap_sync_behaves(info, SyncOutcome::Failure(Error::ResultError(diag)), r),
    ensures
        !r.success,
        r.data matches Some(b) && b@ == encode_utf8("RESULT_ERROR"@ + ": "@ + diag@),
{
}

/// A call (any asynchronous mode) whose task faults delivers exactly one
/// failure notification, whose envelope reads code `"PANIC_ERROR"` and, as
/// its message, the fault's string payload verbatim — or the fixed
/// placeholder when the payload is not string-like.
pub proof fn lemma_fault_notification(info: WrapInfo, p: PanicPayload, r: DispatchResult)
    requires
        info.well_formed(),
        !(info.mode is Sync),
        wrap_behaves(info, PrepareOutcome::Prepared(TaskOutcome::Failure(Error::Panic(p))), r),
    ensures
        r == DispatchResult::Notify(info.port->0, Notification::Failure(Error::Panic(p))),
        Error::Panic(p).code_spec() == "PANIC_ERROR"@,
        p matches PanicPayload::Text(s) ==> Error::Panic(p).message_spec() == s@,
        p is Opaque ==> Error::Panic(p).message_spec() == "Box<dyn Any>"@,
        terminal_notification_count(r) == 1,
{
}

/// A synchronous call whose task faults produces exactly one envelope: not a
/// success, its buffer encoding `"PANIC_ERROR: <message>"`.
pub proof fn lemma_fault_sync_envelope(info: WrapInfo, p: PanicPayload, r: WireSyncReturnStruct)
    requires
        info.mode is Sync,
        wrap_sync_behaves(info, SyncOutcome::Failure(Error::Panic(p)), r),
    ensures
        !r.success,
        r.data matches Some(b) && b@ == encode_utf8(
            "PANIC_ERROR"@ + ": "@ + Error::Panic(p).message_spec(),
        ),
{
}

/// A stream-mode call never delivers a terminal success notification,
/// whatever its task's outcome — and whatever its preparation did.
pub proof fn lemma_stream_no_terminal_success(
    info: WrapInfo,
    prepared: PrepareOutcome,
    r: DispatchResult,
)
    requires
        info.mode is Stream,
        wrap_behaves(info, prepared, r),
    ensures
        !(r matches DispatchResult::Notify(_, Notification::Success(_))),
{
}

/// At-most-once delivery: no call delivers more than one terminal
/// notification.  One dispatch decision is taken per call, and no decision
/// carries two notifications.
pub proof fn lemma_at_most_one_terminal(info: WrapInfo, prepared: PrepareOutcome, r: DispatchResult)
    requires
        wrap_behaves(info, prepared, r),
    ensures
        terminal_notification_count(r) <= 1,
{
}

/// A fault during preparation is contained: with a channel it is reported
/// there as a captured fault, and with no channel it is dropped — in neither
/// case does it escape.
pub proof fn lemma_prepare_fault_contained(info: WrapInfo, p: PanicPayload, r: DispatchResult)
    requires
        wrap_behaves(info, PrepareOutcome::Fault(p), r),
    ensures
        info.port matches Some(port) ==> r == DispatchResult::Notify(
            port,
            Notification::Failure(Error::Panic(p)),
        ),
        info.port is None ==> r is Dropped,
{
}

/// A synchronous call always comes back as a well-formed envelope, and on
/// any path that is not a synchronous success — a failed task, or a
/// misrouted call — that envelope is not a success.
pub proof fn lemma_wrap_sync_failure_flag(
    info: WrapInfo,
    outcome: SyncOutcome,
    r: WireSyncReturnStruct,
)
    requires
        wrap_sync_behaves(info, outcome, r),
        !(info.mode is Sync && outcome is Success),
    ensures
        !r.success,
{
}

} // verus!
