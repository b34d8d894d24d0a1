use vstd::prelude::*;
use vstd::string::*;

verus! {

/// The classes of failure the core reports.
#[derive(Clone, Copy, Debug, PartialEq, Eq, Structural)]
pub enum ErrorKind {
    /// A creation call succeeded but handed back a null handle, or an expected handle is absent.
    NullHandle,
    /// The engine reported a failure, decoded into a code and a message.
    NativeError,
    /// The nested-inference rendezvous channel produced no result.
    ChannelClosed,
    /// A length-prefixed string payload or a numeric buffer is malformed.
    DecodeError,
    /// A value does not fit the wire format (a string longer than a 4-byte prefix can state).
    EncodeError,
    /// A host buffer for an output could not be provided.
    AllocationFailure,
    /// A nested inference did not complete within the time the caller allowed.
    TimedOut,
}

/// What a native error object held, read out before the object is released.
/// `message` is `None` where the engine's message accessor gave a null pointer.
#[derive(Clone, Debug)]
pub struct NativeErrorInfo {
    pub code: u32,
    pub message: Option<String>,
}

/// Engine error code used for every error this core hands back across the ABI.
pub const ERROR_CODE_INTERNAL: u32 = 1;

/// The message of an engine error that carries none.
pub open spec fn unknown_error_message() -> Seq<char> {
    "Unknown Triton error"@
}

/// The message of a `NullHandle` error for the handle named `what`.
pub open spec fn null_handle_message(what: Seq<char>) -> Seq<char> {
    "Pointer is null: "@ + what
}

/// The message of a `ChannelClosed` error.
pub open spec fn channel_closed_message() -> Seq<char> {
    "Inference channel closed"@
}

/// The message of a `TimedOut` error.
pub open spec fn timed_out_message() -> Seq<char> {
    "Inference timed out"@
}

/// The message an engine error decodes to.
pub open spec fn native_message(info: NativeErrorInfo) -> Seq<char> {
    match info.message {
        Some(m) => m@,
        None => unknown_error_message(),
    }
}

/// Whether a native error carries exactly the message `m`.
pub open spec fn carries_message(info: NativeErrorInfo, m: Seq<char>) -> bool {
    info.message matches Some(s) && s@ == m
}

/// A structured error: its class, the engine code it carries, and its message.
#[derive(Clone, Debug)]
pub struct TritonError {
    pub kind: ErrorKind,
    pub code: u32,
    pub message: String,
}

impl TritonError {
    /// Decodes an engine error: its code, and its message or, where it has
    /// none, a generic one.
    pub fn new(info: NativeErrorInfo) -> (r: TritonError)
        ensures
            r.kind == ErrorKind::NativeError,
            r.code == info.code,
            r.message@ == native_message(info),
    {
        let message = match info.message {
            Some(m) => m,
            None => {
                proof {
                    reveal_strlit("Unknown Triton error");
                }
                "Unknown Triton error".to_owned()
            },
        };
        TritonError { kind: ErrorKind::NativeError, code: info.code, message }
    }

    /// An error built from a message alone, with no engine object behind it.
    pub fn from_message(message: &str) -> (r: TritonError)
        ensures
            r.kind == ErrorKind::NativeError,
            r.code == ERROR_CODE_INTERNAL,
            r.message@ == message@,
    {
        TritonError { kind: ErrorKind::NativeError, code: ERROR_CODE_INTERNAL, message: message.to_owned() }
    }

    /// An error of the given class with the given message.
    pub fn with_kind(kind: ErrorKind, message: &str) -> (r: TritonError)
        ensures
            r.kind == kind,
            r.code == ERROR_CODE_INTERNAL,
            r.message@ == message@,
    {
        TritonError { kind, code: ERROR_CODE_INTERNAL, message: message.to_owned() }
    }

    /// The `NullHandle` error for the handle named `what`.
    pub fn null_handle(what: &str) -> (r: TritonError)
        ensures
            r.kind == ErrorKind::NullHandle,
            r.code == ERROR_CODE_INTERNAL,
            r.message@ == null_handle_message(what@),
    {
        proof {
            reveal_strlit("Pointer is null: ");
        }
        let message = "Pointer is null: ".to_owned().concat(what);
        TritonError { kind: ErrorKind::NullHandle, code: ERROR_CODE_INTERNAL, message }
    }

    /// The error reported when the rendezvous channel yields no result.
    pub fn channel_closed() -> (r: TritonError)
        ensures
            r.kind == ErrorKind::ChannelClosed,
            r.code == ERROR_CODE_INTERNAL,
            r.message@ == channel_closed_message(),
    {
        proof {
            reveal_strlit("Inference channel closed");
        }
        TritonError {
            kind: ErrorKind::ChannelClosed,
            code: ERROR_CODE_INTERNAL,
            message: "Inference channel closed".to_owned(),
        }
    }

    /// The text of the error.
    pub fn to_string(&self) -> (r: String)
        ensures
            r@ == self.message@,
    {
        self.message.clone()
    }
}

/// Interprets the status of a native call: no error object means success.
pub fn check_status(status: Option<NativeErrorInfo>) -> (r: Result<(), TritonError>)
    ensures
        status.is_none() <==> r is Ok,
        status matches Some(info) ==> (r matches Err(e) && e.kind == ErrorKind::NativeError
            && e.code == info.code && e.message@ == native_message(info)),
{
    match status {
        None => Ok(()),
        Some(info) => Err(TritonError::new(info)),
    }
}

/// Checks that a handle (its address, zero for null) is present.
pub fn ensure_handle(handle: usize, what: &str) -> (r: Result<usize, TritonError>)
    ensures
        handle != 0 <==> r is Ok,
        r matches Ok(h) ==> h == handle,
        r matches Err(e) ==> e.kind == ErrorKind::NullHandle && e.message@ == null_handle_message(
            what@,
        ),
{
    if handle == 0 {
        Err(TritonError::null_handle(what))
    } else {
        Ok(handle)
    }
}

/// The outcome of a creation call: the engine's own error comes first; a
/// reported success with a null handle is a `NullHandle` error, never a handle.
pub fn created(status: Option<NativeErrorInfo>, handle: usize, what: &str) -> (r: Result<
    usize,
    TritonError,
>)
    ensures
        r is Ok <==> status.is_none() && handle != 0,
        r matches Ok(h) ==> h == handle,
        status matches Some(info) ==> (r matches Err(e) && e.kind == ErrorKind::NativeError
            && e.code == info.code && e.message@ == native_message(info)),
        status.is_none() && handle == 0 ==> (r matches Err(e) && e.kind == ErrorKind::NullHandle
            && e.message@ == null_handle_message(what@)),
{
    match check_status(status) {
        Err(e) => Err(e),
        Ok(()) => ensure_handle(handle, what),
    }
}

} // verus!
