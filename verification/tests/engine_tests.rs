use frb_handler::call::{FfiCallMode, MessagePort, TransportValue, WrapInfo};
use frb_handler::error::{Error, PanicPayload};
use frb_handler::executor::{Executor, ThreadPoolExecutor};
use frb_handler::handler::{DefaultHandler, Handler, SimpleHandler};
use frb_handler::outcome::{
    stream_value_notification, sync_outcome_from_result, task_outcome_from_result, DispatchResult,
    Notification, PrepareOutcome, SyncDispatch, SyncOutcome, TaskOutcome,
};
use frb_handler::reporter::{ErrorHandler, ReportDartErrorHandler};
use frb_handler::sync_return::{wire_sync_fallback, wire_sync_from_data, WireSyncReturnData};

fn async_info(mode: FfiCallMode) -> WrapInfo {
    WrapInfo {
        port: Some(MessagePort(7)),
        debug_name: "function_under_test",
        mode,
    }
}

fn sync_info() -> WrapInfo {
    WrapInfo {
        port: None,
        debug_name: "function_under_test",
        mode: FfiCallMode::Sync,
    }
}

#[test]
fn scenario_sync_success_returns_encoded_payload() {
    let handler = DefaultHandler::default();
    let encoded_42 = vec![42u8];
    let outcome = SyncOutcome::Success(WireSyncReturnData(Some(encoded_42.clone())));
    let envelope = handler.wrap_sync(&sync_info(), outcome);
    assert!(envelope.success);
    assert_eq!(envelope.data, Some(encoded_42));
}

#[test]
fn scenario_sync_ordinary_failure_encodes_description() {
    let handler = DefaultHandler::default();
    let outcome = sync_outcome_from_result(Err(anyhow::Error::msg("bad input")));
    let envelope = handler.wrap_sync(&sync_info(), outcome);
    assert!(!envelope.success);
    assert_eq!(envelope.data, Some(b"RESULT_ERROR: bad input".to_vec()));
}

#[test]
fn scenario_async_fault_with_string_payload() {
    let handler = DefaultHandler::default();
    let fault = Error::Panic(PanicPayload::Text("index out of range".to_string()));
    let prepared = PrepareOutcome::Prepared(TaskOutcome::Failure(fault.clone()));
    let result = handler.wrap(&async_info(FfiCallMode::Normal), prepared);
    match result {
        DispatchResult::Notify(port, Notification::Failure(e)) => {
            assert_eq!(port, MessagePort(7));
            assert_eq!(e.code(), "PANIC_ERROR");
            assert_eq!(e.message(), "index out of range");
        }
        other => panic!("expected a failure notification, got {:?}", other),
    }
}

#[test]
fn scenario_sync_descriptor_dispatched_via_execute_is_fatal() {
    let executor = ThreadPoolExecutor::new(ReportDartErrorHandler);
    let outcome = TaskOutcome::Success(TransportValue(vec![1]));
    let result = executor.execute(&sync_info(), outcome);
    assert!(matches!(result, DispatchResult::Fatal(_)));
}

#[test]
fn normal_success_delivers_one_success_notification() {
    let handler = DefaultHandler::default();
    let value = TransportValue(vec![1, 2, 3]);
    let prepared = PrepareOutcome::Prepared(TaskOutcome::Success(value.clone()));
    let result = handler.wrap(&async_info(FfiCallMode::Normal), prepared);
    assert_eq!(
        result,
        DispatchResult::Notify(MessagePort(7), Notification::Success(value))
    );
}

#[test]
fn stream_success_delivers_no_terminal_notification() {
    let handler = DefaultHandler::default();
    let prepared = PrepareOutcome::Prepared(TaskOutcome::Success(TransportValue(vec![9])));
    let result = handler.wrap(&async_info(FfiCallMode::Stream), prepared);
    assert_eq!(result, DispatchResult::Silent);
}

#[test]
fn stream_failure_still_delivers_failure_notification() {
    let handler = DefaultHandler::default();
    let fault = Error::ResultError("stream broke".to_string());
    let prepared = PrepareOutcome::Prepared(TaskOutcome::Failure(fault.clone()));
    let result = handler.wrap(&async_info(FfiCallMode::Stream), prepared);
    assert_eq!(
        result,
        DispatchResult::Notify(MessagePort(7), Notification::Failure(fault))
    );
}

#[test]
fn prepare_fault_is_reported_on_the_channel() {
    let handler = DefaultHandler::default();
    let prepared = PrepareOutcome::Fault(PanicPayload::Text("phase one died".to_string()));
    let result = handler.wrap(&async_info(FfiCallMode::Normal), prepared);
    assert_eq!(
        result,
        DispatchResult::Notify(
            MessagePort(7),
            Notification::Failure(Error::Panic(PanicPayload::Text(
                "phase one died".to_string()
            )))
        )
    );
}

#[test]
fn prepare_fault_without_channel_is_dropped() {
    let handler = DefaultHandler::default();
    let prepared = PrepareOutcome::Fault(PanicPayload::Opaque);
    let result = handler.wrap(&sync_info(), prepared);
    assert_eq!(result, DispatchResult::Dropped);
}

#[test]
fn error_codes_are_the_stable_strings() {
    assert_eq!(Error::ResultError("x".to_string()).code(), "RESULT_ERROR");
    assert_eq!(Error::Panic(PanicPayload::Opaque).code(), "PANIC_ERROR");
}

#[test]
fn ordinary_failure_message_is_its_diagnostic() {
    let e = Error::ResultError("could not parse".to_string());
    assert_eq!(e.message(), "could not parse");
}

#[test]
fn opaque_fault_message_is_the_placeholder() {
    assert_eq!(Error::Panic(PanicPayload::Opaque).message(), "Box<dyn Any>");
}

#[test]
fn string_fault_message_is_verbatim() {
    let e = Error::Panic(PanicPayload::Text("exact text".to_string()));
    assert_eq!(e.message(), "exact text");
}

#[test]
fn task_outcome_keeps_a_success_unchanged() {
    let outcome = task_outcome_from_result(Ok(TransportValue(vec![5])));
    assert_eq!(outcome, TaskOutcome::Success(TransportValue(vec![5])));
}

#[test]
fn task_outcome_folds_an_ordinary_failure_into_its_envelope() {
    let cause = anyhow::Error::msg("boom");
    let expected = format!("{:?}", cause);
    let outcome = task_outcome_from_result(Err(cause));
    match outcome {
        TaskOutcome::Failure(Error::ResultError(diag)) => assert_eq!(diag, expected),
        other => panic!("expected an ordinary failure, got {:?}", other),
    }
}

#[test]
fn sync_outcome_folds_an_ordinary_failure_into_its_envelope() {
    let outcome = sync_outcome_from_result(Err(anyhow::Error::msg("broken")));
    match outcome {
        SyncOutcome::Failure(Error::ResultError(diag)) => assert_eq!(diag, "broken"),
        other => panic!("expected an ordinary failure, got {:?}", other),
    }
}

#[test]
fn handle_error_addresses_the_failure_to_the_port() {
    let reporter = ReportDartErrorHandler;
    let e = Error::ResultError("oops".to_string());
    let result = reporter.handle_error(MessagePort(3), e.clone());
    assert_eq!(
        result,
        DispatchResult::Notify(MessagePort(3), Notification::Failure(e))
    );
}

#[test]
fn handle_error_sync_encodes_code_and_message() {
    let reporter = ReportDartErrorHandler;
    let envelope = reporter.handle_error_sync(Error::Panic(PanicPayload::Opaque));
    assert!(!envelope.success);
    assert_eq!(envelope.data, Some(b"PANIC_ERROR: Box<dyn Any>".to_vec()));
}

#[test]
fn wire_sync_from_data_keeps_payload_and_flag() {
    let envelope = wire_sync_from_data(WireSyncReturnData(Some(vec![8, 9])), true);
    assert!(envelope.success);
    assert_eq!(envelope.data, Some(vec![8, 9]));
    let empty = wire_sync_from_data(WireSyncReturnData(None), false);
    assert!(!empty.success);
    assert_eq!(empty.data, None);
}

#[test]
fn fallback_envelope_is_empty_and_not_a_success() {
    let envelope = wire_sync_fallback();
    assert!(!envelope.success);
    assert_eq!(envelope.data, None);
}

#[test]
fn execute_sync_completes_a_sync_call_unchanged() {
    let executor = ThreadPoolExecutor::new(ReportDartErrorHandler);
    let outcome = SyncOutcome::Success(WireSyncReturnData(Some(vec![4])));
    let result = executor.execute_sync(&sync_info(), outcome);
    assert_eq!(
        result,
        SyncDispatch::Completed(SyncOutcome::Success(WireSyncReturnData(Some(vec![4]))))
    );
}

#[test]
fn execute_sync_on_a_non_sync_descriptor_is_fatal() {
    let executor = ThreadPoolExecutor::new(ReportDartErrorHandler);
    let outcome = SyncOutcome::Success(WireSyncReturnData(None));
    let result = executor.execute_sync(&async_info(FfiCallMode::Normal), outcome);
    assert!(matches!(result, SyncDispatch::Fatal(_)));
}

#[test]
fn wrap_sync_on_a_misrouted_call_reports_the_misuse_fault() {
    let handler = DefaultHandler::default();
    let outcome = SyncOutcome::Success(WireSyncReturnData(Some(vec![1])));
    let envelope = handler.wrap_sync(&async_info(FfiCallMode::Normal), outcome);
    assert!(!envelope.success);
    let buffer = envelope.data.expect("a misuse fault carries a description");
    let text = String::from_utf8(buffer).expect("the description is text");
    assert!(text.starts_with("PANIC_ERROR: "));
}

#[test]
fn execute_without_a_port_is_fatal() {
    let executor = ThreadPoolExecutor::new(ReportDartErrorHandler);
    let ill_formed = WrapInfo {
        port: None,
        debug_name: "function_under_test",
        mode: FfiCallMode::Normal,
    };
    let result = executor.execute(&ill_formed, TaskOutcome::Success(TransportValue(vec![])));
    assert!(matches!(result, DispatchResult::Fatal(_)));
}

#[test]
fn stream_values_are_wrapped_unchanged() {
    let n = stream_value_notification(TransportValue(vec![7, 7]));
    assert_eq!(n, Notification::StreamValue(TransportValue(vec![7, 7])));
}

#[test]
fn composed_handler_uses_its_own_parts() {
    let handler = SimpleHandler::new(
        ThreadPoolExecutor::new(ReportDartErrorHandler),
        ReportDartErrorHandler,
    );
    let value = TransportValue(vec![0]);
    let prepared = PrepareOutcome::Prepared(TaskOutcome::Success(value.clone()));
    let result = handler.wrap(&async_info(FfiCallMode::Normal), prepared);
    assert_eq!(
        result,
        DispatchResult::Notify(MessagePort(7), Notification::Success(value))
    );
}
