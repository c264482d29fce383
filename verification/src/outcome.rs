//! What the containment shell observed, and what the engine decides.
//!
//! Each contained execution of caller-supplied logic ends in exactly one
//! observation: a value, an ordinary failure, or a captured fault.  The shell
//! reports the observation as a plain outcome value; the engine maps it to
//! the one action the call path takes.

use anyhow::Error as AnyhowError;
use vstd::prelude::*;

use crate::call::{MessagePort, TransportValue};
use crate::error::{ordinary_failure_envelope, Error, PanicPayload};
use crate::sync_return::WireSyncReturnData;

verus! {

/// How one run of a transferable (phase 2) task ended, after its successful
/// value was converted to transport form and any fault was captured by the
/// containment scope around it.
#[derive(Debug, PartialEq, Eq)]
pub enum TaskOutcome {
    /// The task returned a value; here it is in transport form.
    Success(TransportValue),
    /// The task failed: an ordinary failure or a captured fault, already
    /// normalized into the uniform envelope.
    Failure(Error),
}

/// How one run of a synchronous task ended, with its successful payload
/// already in wire form.
#[derive(Debug, PartialEq, Eq)]
pub enum SyncOutcome {
    /// The task returned a value; here it is in wire form.
    Success(WireSyncReturnData),
    /// The task failed: an ordinary failure or a captured fault, already
    /// normalized into the uniform envelope.
    Failure(Error),
}

/// How the preparation (phase 1) step and the task it produced ended.
#[derive(Debug, PartialEq, Eq)]
pub enum PrepareOutcome {
    /// Phase 1 produced the transferable task, and the task in turn ended
    /// with this outcome.
    Prepared(TaskOutcome),
    /// Phase 1 itself (or the dispatch around it) faulted before a task
    /// existed.
    Fault(PanicPayload),
}

/// One message for the notification channel.
#[derive(Debug, PartialEq, Eq)]
pub enum Notification {
    /// A terminal success, carrying the converted result.
    Success(TransportValue),
    /// An intermediate value of a stream-mode call.
    StreamValue(TransportValue),
    /// A terminal failure, carrying the envelope whose code and message the
    /// channel delivers.
    Failure(Error),
}

/// The single action an asynchronous or stream call path takes.
#[derive(Debug, PartialEq, Eq)]
pub enum DispatchResult {
    /// Deliver this notification on this channel.
    Notify(MessagePort, Notification),
    /// Deliver nothing: a stream-mode task ended successfully, and a stream
    /// has no terminal success value.
    Silent,
    /// Protocol misuse or a missing channel: the call path terminates and is
    /// never silently misrouted.  The text names the misuse.
    Fatal(&'static str),
    /// A fault was captured while no channel existed to report it on; the
    /// outermost containment scope swallows it rather than let it escape.
    Dropped,
}

/// The result of routing a synchronous call through a scheduler.
#[derive(Debug, PartialEq, Eq)]
pub enum SyncDispatch {
    /// The call ran inline; this is its outcome, unchanged.
    Completed(SyncOutcome),
    /// Protocol misuse: a non-synchronous call was routed to the inline
    /// path.  The text names the misuse.
    Fatal(&'static str),
}

/// Normalizes what a transferable task returned: a converted value becomes a
/// success outcome, and an ordinary failure is folded into its envelope.
pub fn task_outcome_from_result(r: Result<TransportValue, AnyhowError>) -> (o: TaskOutcome)
    ensures
        r matches Ok(v) ==> o == TaskOutcome::Success(v),
        r is Err ==> (o matches TaskOutcome::Failure(e) && e is ResultError),
{
    match r {
        Ok(v) => TaskOutcome::Success(v),
        Err(cause) => TaskOutcome::Failure(ordinary_failure_envelope(cause)),
    }
}

/// Normalizes what a synchronous task returned, exactly as
/// [`task_outcome_from_result`] does for a transferable task.
pub fn sync_outcome_from_result(r: Result<WireSyncReturnData, AnyhowError>) -> (o: SyncOutcome)
    ensures
        r matches Ok(d) ==> o == SyncOutcome::Success(d),
        r is Err ==> (o matches SyncOutcome::Failure(e) && e is ResultError),
{
    match r {
        Ok(d) => SyncOutcome::Success(d),
        Err(cause) => SyncOutcome::Failure(ordinary_failure_envelope(cause)),
    }
}

/// Wraps one intermediate value of a stream-mode call for the channel.
pub fn stream_value_notification(value: TransportValue) -> (n: Notification)
    ensures
        n == Notification::StreamValue(value),
{
    Notification::StreamValue(value)
}

} // verus!
