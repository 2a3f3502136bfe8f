use truehub_api::client::{
    extract_error_message, failure_result, interpret_reply, reader_step, CallFailure, ConnectionState,
    ReaderStep, RpcErrorInfo, StreamItem, TrueNasRpcError,
};
use truehub_api::manager::{after_call, after_reconnect, is_auth_error, mentions_auth_failure, CallStep, RetryStep};
use truehub_api::result::ApiResult;

fn err<T>(m: &str) -> ApiResult<T> {
    ApiResult::Error { message: m.to_string() }
}

fn message<T>(r: &ApiResult<T>) -> &str {
    match r {
        ApiResult::Error { message } => message,
        _ => panic!("not an error"),
    }
}

#[test]
fn connection_state() {
    assert!(ConnectionState::Connected.is_connected());
    assert!(!ConnectionState::Connecting.is_connected());
    assert!(!ConnectionState::Error("x".into()).is_connected());
    assert!(!ConnectionState::Disconnected.is_connected());
}

#[test]
fn rpc_error_text() {
    let e = TrueNasRpcError { code: -32601, message: "Method not found".into() };
    assert_eq!(e.describe(), "RPC Error -32601: Method not found");
}

#[test]
fn error_reason_wins_over_message() {
    let with = RpcErrorInfo { message: "Validation error".into(), reason: Some("[EINVAL] bad".into()) };
    assert_eq!(extract_error_message(&with), "[EINVAL] bad");
    let without = RpcErrorInfo { message: "Validation error".into(), reason: None };
    assert_eq!(extract_error_message(&without), "Validation error");
}

#[test]
fn replies_are_interpreted() {
    let e = RpcErrorInfo { message: "m".into(), reason: None };
    assert_eq!(message(&interpret_reply::<bool>(Some(e), Some(Ok(true)))), "m");
    assert!(matches!(interpret_reply::<bool>(None, Some(Ok(true))), ApiResult::Success(true)));
    assert_eq!(message(&interpret_reply::<bool>(None, Some(Err("bad json".into())))), "bad json");
    assert_eq!(message(&interpret_reply::<bool>(None, None)), "Null result");
}

#[test]
fn failures_have_their_messages() {
    assert_eq!(message(&failure_result::<()>(CallFailure::NotConnected)), "Not connected");
    assert_eq!(message(&failure_result::<()>(CallFailure::SendFailed)), "Failed to send message");
    assert_eq!(message(&failure_result::<()>(CallFailure::ChannelDropped)), "Response channel dropped");
    assert_eq!(message(&failure_result::<()>(CallFailure::Encode("oops".into()))), "oops");
}

#[test]
fn reader_steps() {
    assert!(matches!(reader_step(StreamItem::Text("{}".into())), ReaderStep::Dispatch(ref t) if t == "{}"));
    assert!(matches!(reader_step(StreamItem::Other), ReaderStep::Skip));
    assert!(matches!(reader_step(StreamItem::Failed("reset".into())), ReaderStep::Stop(ConnectionState::Error(ref m)) if m == "reset"));
}

#[test]
fn auth_errors_are_recognised() {
    assert!(is_auth_error(&err::<()>("[ENOTAUTHENTICATED] Not authenticated")));
    assert!(is_auth_error(&err::<()>("Invalid Session token")));
    assert!(!is_auth_error(&err::<()>("Invalid credentials")));
    assert!(!is_auth_error(&ApiResult::Success(1)));
    assert!(!is_auth_error(&ApiResult::<u8>::Loading));
}

#[test]
fn recovery_decisions() {
    assert!(matches!(after_call(err::<u8>("ENOTAUTHENTICATED")), CallStep::Reconnect));
    assert!(matches!(after_call(ApiResult::Success(3u8)), CallStep::Done(ApiResult::Success(3))));
    assert!(matches!(after_call(err::<u8>("other")), CallStep::Done(ApiResult::Error { .. })));
    assert!(matches!(after_reconnect::<u8>(true), RetryStep::CallAgain));
    match after_reconnect::<u8>(false) {
        RetryStep::Done(r) => assert_eq!(message(&r), "Session expired. Please login again."),
        _ => panic!("expected done"),
    }
}

#[test]
fn lowercased_auth_failure_markers() {
    assert!(mentions_auth_failure("[enotauthenticated] not authenticated"));
    assert!(mentions_auth_failure("invalid session token"));
    assert!(!mentions_auth_failure("[ENOTAUTHENTICATED]"));
    assert!(!mentions_auth_failure("invalid  session"));
    assert!(!mentions_auth_failure(""));
}
