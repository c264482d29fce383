//! The error reporter: turns a fault envelope into a boundary-safe
//! notification or synchronous return value.

use vstd::prelude::*;
use vstd::string::{StrSliceExecFns, StringExecFns};
use vstd::utf8::encode_utf8;

use crate::call::MessagePort;
use crate::error::Error;
use crate::outcome::{DispatchResult, Notification};
use crate::sync_return::{wire_sync_from_data, WireSyncReturnData, WireSyncReturnStruct};

verus! {

/// The textual failure description a synchronous envelope carries:
/// the error's code, a separator, and its message.
pub open spec fn sync_failure_text(e: Error) -> Seq<char> {
    e.code_spec() + ": "@ + e.message_spec()
}

/// What a synchronous failure envelope looks like: not a success, and its
/// buffer encodes the failure description of `e`.
pub open spec fn sync_failure_envelope(e: Error, r: WireSyncReturnStruct) -> bool {
    &&& !r.success
    &&& r.data matches Some(b) && b@ == encode_utf8(sync_failure_text(e))
}

/// A handler model that reports a failure back over the call's notification
/// channel, or as a synchronous envelope.
///
/// A reporter is stateless: both methods are a single attempt, and what they
/// produce is fixed by the fault envelope alone.
pub trait ErrorHandler: Sized {
    /// Addresses a failure notification carrying `error`'s code and message
    /// to `port`.
    fn handle_error(&self, port: MessagePort, error: Error) -> (r: DispatchResult)
        ensures
            r == DispatchResult::Notify(port, Notification::Failure(error)),
    ;

    /// Special handler only used for synchronous code: produces the failure
    /// envelope, never a success.
    fn handle_error_sync(&self, error: Error) -> (r: WireSyncReturnStruct)
        ensures
            sync_failure_envelope(error, r),
    ;
}

/// The default reporter: it sends the failure to the call's own channel and
/// encodes the `"<code>: <message>"` description for synchronous returns.
#[derive(Clone, Copy, Debug)]
pub struct ReportDartErrorHandler;

impl ErrorHandler for ReportDartErrorHandler {
    fn handle_error(&self, port: MessagePort, error: Error) -> (r: DispatchResult) {
        DispatchResult::Notify(port, Notification::Failure(error))
    }

    fn handle_error_sync(&self, error: Error) -> (r: WireSyncReturnStruct) {
        let ghost e = error;
        let message = error.message();
        let mut text = String::from_str(error.code());
        text.append(": ");
        text.append(message.as_str());
        proof {
            assert(text@ =~= sync_failure_text(e));
        }
        let bytes = text.as_str().as_bytes_vec();
        wire_sync_from_data(WireSyncReturnData(Some(bytes)), false)
    }
}

} // verus!
