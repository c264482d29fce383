//! The call scheduler: decides where a call runs and what its worker
//! delivers.

use vstd::prelude::*;

use crate::call::{FfiCallMode, WrapInfo};
use crate::outcome::{DispatchResult, Notification, SyncDispatch, SyncOutcome, TaskOutcome};
use crate::reporter::ErrorHandler;

verus! {

/// The scheduling contract for asynchronous and stream calls.
///
/// A worker bound to a well-formed descriptor delivers, on the descriptor's
/// own channel: the converted result (normal mode, success), nothing (stream
/// mode, success — a stream has no terminal success value), or a failure
/// notification carrying the envelope.  Routing a synchronous call here, or
/// dispatching without a channel, is protocol misuse and fatal.
pub open spec fn execute_behaves(info: WrapInfo, outcome: TaskOutcome, r: DispatchResult) -> bool {
    &&& (info.mode is Sync || info.port is None) ==> r is Fatal
    &&& (info.mode is Normal && info.port is Some) ==> match outcome {
        TaskOutcome::Success(v) => r == DispatchResult::Notify(
            info.port->0,
            Notification::Success(v),
        ),
        TaskOutcome::Failure(e) => r == DispatchResult::Notify(
            info.port->0,
            Notification::Failure(e),
        ),
    }
    &&& (info.mode is Stream && info.port is Some) ==> match outcome {
        TaskOutcome::Success(_) => r is Silent,
        TaskOutcome::Failure(e) => r == DispatchResult::Notify(
            info.port->0,
            Notification::Failure(e),
        ),
    }
}

/// The scheduling contract for synchronous calls: they run inline and their
/// outcome comes back unchanged; routing any other mode here is protocol
/// misuse and fatal.
pub open spec fn execute_sync_behaves(
    info: WrapInfo,
    outcome: SyncOutcome,
    r: SyncDispatch,
) -> bool {
    if info.mode is Sync {
        r == SyncDispatch::Completed(outcome)
    } else {
        r is Fatal
    }
}

/// An executor model: the policy that schedules call execution.
///
/// The containment shell runs the task where the executor's policy puts it
/// (the default spawns one worker per call) and reports the outcome it
/// observed; the executor decides what that run delivers.
pub trait Executor: Sized {
    /// The worker-side decision for an asynchronous or stream call whose
    /// task ended with `outcome`.
    fn execute(&self, info: &WrapInfo, outcome: TaskOutcome) -> (r: DispatchResult)
        ensures
            execute_behaves(*info, outcome, r),
    ;

    /// The inline decision for a synchronous call whose task ended with
    /// `outcome`.
    fn execute_sync(&self, info: &WrapInfo, outcome: SyncOutcome) -> (r: SyncDispatch)
        ensures
            execute_sync_behaves(*info, outcome, r),
    ;
}

/// The default executor.
///
/// Its policy gives every asynchronous or stream call an independent worker,
/// so no call's execution can block behind another's; the reporter it holds
/// builds the failure notifications its workers deliver.
pub struct ThreadPoolExecutor<EH: ErrorHandler> {
    /// The reporter the executor's workers hand failures to.
    pub error_handler: EH,
}

impl<EH: ErrorHandler> ThreadPoolExecutor<EH> {
    /// Create a new executor backed by the worker-per-call policy.
    pub fn new(error_handler: EH) -> (r: Self)
        ensures
            r.error_handler == error_handler,
    {
        ThreadPoolExecutor { error_handler }
    }
}

impl<EH: ErrorHandler> Executor for ThreadPoolExecutor<EH> {
    fn execute(&self, info: &WrapInfo, outcome: TaskOutcome) -> (r: DispatchResult) {
        match info.mode {
            FfiCallMode::Sync => DispatchResult::Fatal(
                "FfiCallMode::Sync should not call execute, please call execute_sync instead",
            ),
            FfiCallMode::Normal => match info.port {
                None => DispatchResult::Fatal("(worker) thread"),
                Some(port) => match outcome {
                    TaskOutcome::Success(v) => DispatchResult::Notify(
                        port,
                        Notification::Success(v),
                    ),
                    TaskOutcome::Failure(e) => self.error_handler.handle_error(port, e),
                },
            },
            FfiCallMode::Stream => match info.port {
                None => DispatchResult::Fatal("(worker) thread"),
                Some(port) => match outcome {
                    TaskOutcome::Success(_) => DispatchResult::Silent,
                    TaskOutcome::Failure(e) => self.error_handler.handle_error(port, e),
                },
            },
        }
    }

    fn execute_sync(&self, info: &WrapInfo, outcome: SyncOutcome) -> (r: SyncDispatch) {
        match info.mode {
            FfiCallMode::Sync => SyncDispatch::Completed(outcome),
            FfiCallMode::Normal | FfiCallMode::Stream => SyncDispatch::Fatal(
                "only FfiCallMode::Sync may call execute_sync, other modes must call execute",
            ),
        }
    }
}

} // verus!
