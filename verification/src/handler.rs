//! The call dispatcher: orchestrates preparation, scheduling and reporting
//! under two layers of fault containment.

use vstd::prelude::*;
use vstd::string::StringExecFns;

use crate::call::WrapInfo;
use crate::error::{Error, PanicPayload};
use crate::executor::{execute_behaves, Executor, ThreadPoolExecutor};
use crate::outcome::{DispatchResult, Notification, PrepareOutcome, SyncDispatch, SyncOutcome};
use crate::reporter::{sync_failure_envelope, ErrorHandler, ReportDartErrorHandler};
use crate::sync_return::{wire_sync_from_data, WireSyncReturnStruct};

verus! {

/// The dispatch contract for asynchronous and stream calls.
///
/// When preparation produced the task, the call behaves as its scheduler
/// promises.  When preparation itself faulted, the fault is reported on the
/// call's channel; with no channel to report on, the outermost containment
/// scope drops it rather than let it escape the boundary.
pub open spec fn wrap_behaves(info: WrapInfo, prepared: PrepareOutcome, r: DispatchResult) -> bool {
    match prepared {
        PrepareOutcome::Prepared(outcome) => execute_behaves(info, outcome, r),
        PrepareOutcome::Fault(p) => match info.port {
            Some(port) => r == DispatchResult::Notify(
                port,
                Notification::Failure(Error::Panic(p)),
            ),
            None => r is Dropped,
        },
    }
}

/// The dispatch contract for synchronous calls.
///
/// An envelope always comes back, and it is a success exactly when the call
/// was synchronous and its task succeeded.  A failed task yields the failure
/// envelope of its fault; a misrouted (non-synchronous) call yields the
/// failure envelope of the captured misuse fault.
pub open spec fn wrap_sync_behaves(
    info: WrapInfo,
    outcome: SyncOutcome,
    r: WireSyncReturnStruct,
) -> bool {
    &&& r.success <==> (info.mode is Sync && outcome is Success)
    &&& info.mode is Sync ==> match outcome {
        SyncOutcome::Success(d) => r.data == d.0,
        SyncOutcome::Failure(e) => sync_failure_envelope(e, r),
    }
    &&& !(info.mode is Sync) ==> exists|e: Error| e is Panic && sync_failure_envelope(e, r)
}

/// A dispatcher model: how a call request is driven through scheduling and
/// reporting.
///
/// Preparation is split from the task because the task must be transferable
/// to a worker while preparation may touch resources bound to the calling
/// thread; preparation must stay synchronous.  The containment shell runs
/// both phases, each under its own containment scope, and reports their
/// outcomes; the dispatcher decides what the call delivers.
pub trait Handler: Sized {
    /// The decision for an asynchronous or stream call: `prepared` is how
    /// its preparation, and the task preparation produced, ended.
    fn wrap(&self, info: &WrapInfo, prepared: PrepareOutcome) -> (r: DispatchResult)
        ensures
            wrap_behaves(*info, prepared, r),
    ;

    /// The decision for a synchronous call: always an envelope, whatever
    /// happened.
    fn wrap_sync(&self, info: &WrapInfo, outcome: SyncOutcome) -> (r: WireSyncReturnStruct)
        ensures
            wrap_sync_behaves(*info, outcome, r),
    ;
}

/// The simple dispatcher: an executor for scheduling and a reporter for
/// failures, composed at construction.
pub struct SimpleHandler<E: Executor, EH: ErrorHandler> {
    /// The scheduling policy.
    pub executor: E,
    /// The failure reporter.
    pub error_handler: EH,
}

impl<E: Executor, EH: ErrorHandler> SimpleHandler<E, EH> {
    /// Create a new dispatcher from its two policies.
    pub fn new(executor: E, error_handler: EH) -> (r: Self)
        ensures
            r == (SimpleHandler { executor, error_handler }),
    {
        SimpleHandler { executor, error_handler }
    }
}

/// The default dispatcher composition: worker-per-call scheduling, with the
/// default reporter on both the scheduling and the dispatch layer.
pub type DefaultHandler = SimpleHandler<
    ThreadPoolExecutor<ReportDartErrorHandler>,
    ReportDartErrorHandler,
>;

impl Default for DefaultHandler {
    fn default() -> (r: Self)
        ensures
            r == (SimpleHandler {
                executor: ThreadPoolExecutor { error_handler: ReportDartErrorHandler },
                error_handler: ReportDartErrorHandler,
            }),
    {
        SimpleHandler::new(ThreadPoolExecutor::new(ReportDartErrorHandler), ReportDartErrorHandler)
    }
}

impl<E: Executor, EH: ErrorHandler> Handler for SimpleHandler<E, EH> {
    fn wrap(&self, info: &WrapInfo, prepared: PrepareOutcome) -> (r: DispatchResult) {
        match prepared {
            PrepareOutcome::Prepared(outcome) => self.executor.execute(info, outcome),
            PrepareOutcome::Fault(p) => match info.port {
                Some(port) => self.error_handler.handle_error(port, Error::Panic(p)),
                None => DispatchResult::Dropped,
            },
        }
    }

    fn wrap_sync(&self, info: &WrapInfo, outcome: SyncOutcome) -> (r: WireSyncReturnStruct) {
        match self.executor.execute_sync(info, outcome) {
            SyncDispatch::Completed(SyncOutcome::Success(d)) => wire_sync_from_data(d, true),
            SyncDispatch::Completed(SyncOutcome::Failure(e)) => self
                .error_handler
                .handle_error_sync(e),
            SyncDispatch::Fatal(misuse) => {
                let fault = Error::Panic(PanicPayload::Text(String::from_str(misuse)));
                let ghost witness = fault;
                let envelope = self.error_handler.handle_error_sync(fault);
                proof {
                    assert(witness is Panic && sync_failure_envelope(witness, envelope));
                }
                envelope
            },
        }
    }
}

} // verus!
