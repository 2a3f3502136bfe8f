use vstd::prelude::*;
use crate::result::ApiResult;
use crate::text::{i64_to_decimal, int_decimal};

verus! {

/// The state of the connection to the server.
#[derive(Debug)]
pub enum ConnectionState {
    Disconnected,
    Connecting,
    Connected,
    Error(String),
}

impl ConnectionState {
    /// Whether the connection is up.
    pub fn is_connected(&self) -> (b: bool)
        ensures
            b == (self is Connected),
    {
        match self {
            ConnectionState::Connected => true,
            _ => false,
        }
    }
}

/// An error the server answered a call with.
#[derive(Debug)]
pub struct TrueNasRpcError {
    pub code: i32,
    pub message: String,
}

impl TrueNasRpcError {
    /// The error as it is shown: `RPC Error <code>: <message>`.
    pub fn describe(&self) -> (s: String)
        ensures
            s@ == "RPC Error "@ + int_decimal(self.code as int) + ": "@ + self.message@,
    {
        let mut out = String::new();
        out.append("RPC Error ");
        let code = i64_to_decimal(self.code as i64);
        out.append(code.as_str());
        out.append(": ");
        out.append(self.message.as_str());
        out
    }
}

/// The parts of the error of a reply that the client reads: its message and,
/// when its data holds a string `reason`, that reason.
#[derive(Debug)]
pub struct RpcErrorInfo {
    pub message: String,
    pub reason: Option<String>,
}

/// The text reported for an error reply: its reason when it has one, else its message.
pub fn extract_error_message(err: &RpcErrorInfo) -> (s: String)
    ensures
        s@ == match err.reason {
            Some(r) => r@,
            None => err.message@,
        },
{
    match &err.reason {
        Some(r) => r.clone(),
        None => err.message.clone(),
    }
}

/// What became of a reply: an error reply wins; else the decoded result, or
/// the decoding error, or `Null result` when there was none.
pub fn interpret_reply<T>(error: Option<RpcErrorInfo>, result: Option<Result<T, String>>) -> (r: ApiResult<T>)
    ensures
        match error {
            Some(e) => r matches ApiResult::Error { message } && message@ == (match e.reason {
                Some(x) => x@,
                None => e.message@,
            }),
            None => match result {
                Some(Ok(v)) => r == ApiResult::Success(v),
                Some(Err(m)) => r == ApiResult::<T>::Error { message: m },
                None => r matches ApiResult::Error { message } && message@ == "Null result"@,
            },
        },
{
    match error {
        Some(e) => ApiResult::Error { message: extract_error_message(&e) },
        None => match result {
            Some(Ok(v)) => ApiResult::Success(v),
            Some(Err(m)) => ApiResult::Error { message: m },
            None => {
                let mut m = String::new();
                m.append("Null result");
                assert(m@ =~= "Null result"@);
                ApiResult::Error { message: m }
            },
        },
    }
}

/// Why a call got no reply.
#[derive(Debug)]
pub enum CallFailure {
    /// The request could not be written as JSON.
    Encode(String),
    /// There is no connection.
    NotConnected,
    /// The request could not be sent.
    SendFailed,
    /// The connection went away before the reply came.
    ChannelDropped,
}

/// The result reported for a call that got no reply.
pub fn failure_result<T>(f: CallFailure) -> (r: ApiResult<T>)
    ensures
        r matches ApiResult::Error { message } && message@ == match f {
            CallFailure::Encode(m) => m@,
            CallFailure::NotConnected => "Not connected"@,
            CallFailure::SendFailed => "Failed to send message"@,
            CallFailure::ChannelDropped => "Response channel dropped"@,
        },
{
    let mut m = String::new();
    match f {
        CallFailure::Encode(e) => {
            m.append(e.as_str());
        },
        CallFailure::NotConnected => {
            m.append("Not connected");
        },
        CallFailure::SendFailed => {
            m.append("Failed to send message");
        },
        CallFailure::ChannelDropped => {
            m.append("Response channel dropped");
        },
    }
    ApiResult::Error { message: m }
}

/// What the reading side of the connection sees.
#[derive(Debug)]
pub enum StreamItem {
    /// A text message.
    Text(String),
    /// A message of another kind (binary, ping, ...).
    Other,
    /// A transport error.
    Failed(String),
}

/// What the reading side does with what it sees.
#[derive(Debug)]
pub enum ReaderStep {
    /// Hand the text to the reply dispatcher and read on.
    Dispatch(String),
    /// Read on.
    Skip,
    /// Report the error state and stop reading.
    Stop(ConnectionState),
}

/// The decision for one item read from the connection: text is dispatched,
/// other messages are skipped, and an error stops the reading with an error
/// state (after which the connection is reported disconnected).
pub fn reader_step(item: StreamItem) -> (s: ReaderStep)
    ensures
        match item {
            StreamItem::Text(t) => s == ReaderStep::Dispatch(t),
            StreamItem::Other => s == ReaderStep::Skip,
            StreamItem::Failed(m) => s == ReaderStep::Stop(ConnectionState::Error(m)),
        },
{
    match item {
        StreamItem::Text(t) => ReaderStep::Dispatch(t),
        StreamItem::Other => ReaderStep::Skip,
        StreamItem::Failed(m) => ReaderStep::Stop(ConnectionState::Error(m)),
    }
}

} // verus!
