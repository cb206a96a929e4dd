//! The JSON-RPC exchange with the daemon: requests, the response envelope and
//! the errors a call can end in.
use vstd::prelude::*;

use crate::decimal::{render_i64, signed_decimal_string};
use crate::text::same_text;

verus! {

/// Why an operation on the daemon failed.
#[derive(Debug, Clone, PartialEq, Eq)]
pub enum ClientError {
    /// No daemon executable was found at any known place.
    DaemonNotFound,
    /// The daemon was spawned but did not answer in time.
    StartupTimeout,
    /// The operating system refused to spawn the daemon.
    SpawnFailed,
    /// The request did not reach the daemon, or no answer came back.
    Transport(String),
    /// The answer could not be read as a response envelope.
    Protocol(String),
    /// The envelope carried neither a result nor an error.
    EmptyResponse,
    /// The daemon refused the call.
    Daemon { code: i64, message: String },
    /// The daemon has no global option of that name.
    OptionNotFound(String),
    /// Another compound operation on the daemon is in progress.
    Busy,
    /// An outcome was reported that the operation in progress did not ask for.
    UnexpectedEvent,
}

/// The text a failure is reported with.
pub open spec fn message_of(e: ClientError) -> Seq<char> {
    match e {
        ClientError::DaemonNotFound => "aria2c not found"@,
        ClientError::StartupTimeout => "aria2c failed to start within timeout"@,
        ClientError::SpawnFailed => "Failed to start aria2c"@,
        ClientError::Transport(m) => "RPC request failed: "@ + m@,
        ClientError::Protocol(m) => "Failed to parse RPC response: "@ + m@,
        ClientError::EmptyResponse => "Empty response from aria2"@,
        ClientError::Daemon { code, message } =>
            "aria2 error: "@ + message@ + " (code: "@ + signed_decimal_string(code as int) + ")"@,
        ClientError::OptionNotFound(k) => "Option "@ + k@ + " not found"@,
        ClientError::Busy => "aria2c is busy with another operation"@,
        ClientError::UnexpectedEvent => "aria2c supervisor received an unexpected event"@,
    }
}

impl ClientError {
    /// Describes the failure: which step failed, with the daemon's or the
    /// transport's own words where there are any.
    pub fn message(&self) -> (r: String)
        ensures
            r@ == message_of(*self),
    {
        match self {
            ClientError::DaemonNotFound => String::from_str("aria2c not found"),
            ClientError::StartupTimeout => String::from_str("aria2c failed to start within timeout"),
            ClientError::SpawnFailed => String::from_str("Failed to start aria2c"),
            ClientError::Transport(m) => String::from_str("RPC request failed: ").concat(m.as_str()),
            ClientError::Protocol(m) => String::from_str("Failed to parse RPC response: ").concat(m.as_str()),
            ClientError::EmptyResponse => String::from_str("Empty response from aria2"),
            ClientError::Daemon { code, message } => {
                let code_text = render_i64(*code);
                String::from_str("aria2 error: ")
                    .concat(message.as_str())
                    .concat(" (code: ")
                    .concat(code_text.as_str())
                    .concat(")")
            },
            ClientError::OptionNotFound(k) => String::from_str("Option ").concat(k.as_str()).concat(" not found"),
            ClientError::Busy => String::from_str("aria2c is busy with another operation"),
            ClientError::UnexpectedEvent => String::from_str("aria2c supervisor received an unexpected event"),
        }
    }
}

/// One positional parameter of a call.
#[derive(Debug, Clone)]
pub enum RpcParam {
    Text(String),
    Number(i64),
    TextList(Vec<String>),
    Object(Vec<(String, String)>),
}

/// A call to make: the method's name and its parameters, in order.
#[derive(Debug, Clone)]
pub struct RpcRequest {
    pub method: String,
    pub params: Vec<RpcParam>,
}

/// The error part of a response envelope.
#[derive(Debug, Clone)]
pub struct RpcErrorBody {
    pub code: i64,
    pub message: String,
}

/// A response envelope, with its result already read as a `T`.
#[derive(Debug, Clone)]
pub struct RpcResponse<T> {
    pub result: Option<T>,
    pub error: Option<RpcErrorBody>,
}

/// What a response envelope amounts to: the daemon's error where there is one,
/// else the result, else an empty-response error.
pub open spec fn outcome_of<T>(resp: RpcResponse<T>) -> Result<T, ClientError> {
    match resp.error {
        Some(e) => Err(ClientError::Daemon { code: e.code, message: e.message }),
        None => match resp.result {
            Some(v) => Ok(v),
            None => Err(ClientError::EmptyResponse),
        },
    }
}

/// Turns a response envelope into the call's outcome.
pub fn decode_response<T>(resp: RpcResponse<T>) -> (r: Result<T, ClientError>)
    ensures
        r == outcome_of(resp),
{
    match resp.error {
        Some(e) => Err(ClientError::Daemon { code: e.code, message: e.message }),
        None => match resp.result {
            Some(v) => Ok(v),
            None => Err(ClientError::EmptyResponse),
        },
    }
}

/// Looks `key` up among the daemon's global options, given as name and text
/// value (none where the value is not text). The first entry of that name with
/// a text value answers; where there is none, the option is not found.
pub fn find_option(entries: &Vec<(String, Option<String>)>, key: &str) -> (r: Result<String, ClientError>)
    ensures
        match r {
            Ok(v) => exists|i: int| 0 <= i < entries@.len() && entries@[i].0@ == key@
                && entries@[i].1 == Some(v)
                && forall|j: int| 0 <= j < i ==> !(#[trigger] entries@[j].0@ == key@ && entries@[j].1.is_some()),
            Err(e) => e is OptionNotFound
                && e->OptionNotFound_0@ == key@
                && forall|j: int| 0 <= j < entries@.len() ==> !(#[trigger] entries@[j].0@ == key@ && entries@[j].1.is_some()),
        },
{
    let mut i: usize = 0;
    while i < entries.len()
        invariant
            i <= entries@.len(),
            forall|j: int| 0 <= j < i ==> !(#[trigger] entries@[j].0@ == key@ && entries@[j].1.is_some()),
        decreases entries@.len() - i,
    {
        let entry = &entries[i];
        if same_text(entry.0.as_str(), key) {
            match &entry.1 {
                Some(v) => {
                    return Ok(v.clone());
                },
                None => {},
            }
        }
        i = i + 1;
    }
    Err(ClientError::OptionNotFound(String::from_str(key)))
}

} // verus!
