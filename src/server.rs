use vstd::prelude::*;
use vstd::string::*;

use crossbeam::channel::{bounded, Receiver, RecvTimeoutError, Sender};
use std::time::Duration;

use crate::allocator::ResponseAllocator;
use crate::error::{
    channel_closed_message, ensure_handle, native_message, null_handle_message, timed_out_message,
    ErrorKind, NativeErrorInfo, TritonError, ERROR_CODE_INTERNAL,
};
use crate::tensor::{datatype_tag, datatype_to_string};
use crate::text::{decimal, decimal_string};

verus! {

/// One output of a completed nested inference, copied out of engine memory.
#[derive(Debug)]
pub struct OutputTensor {
    pub name: String,
    pub data: Vec<u8>,
    pub shape: Vec<i64>,
    pub datatype: String,
}

/// The single outcome of a nested-inference call: its outputs, or the
/// message of the error that stopped it (with no outputs).
#[derive(Debug)]
pub struct InferenceResult {
    pub outputs: Vec<OutputTensor>,
    pub error: Option<String>,
}

/// One output as the engine describes it: name (absent where the engine gave
/// none), datatype code, shape and the bytes of its buffer.
#[derive(Debug)]
pub struct RawOutput {
    pub name: Option<String>,
    pub datatype: u32,
    pub shape: Vec<i64>,
    pub data: Vec<u8>,
}

/// The name given to the output at `index` that the engine left unnamed.
pub open spec fn fallback_output_name(index: u32) -> Seq<char> {
    "output_"@ + decimal(index as nat)
}

/// The name an output is reported under.
pub open spec fn output_name(raw: RawOutput, index: u32) -> Seq<char> {
    match raw.name {
        Some(n) => n@,
        None => fallback_output_name(index),
    }
}

/// Whether a tensor is the faithful copy of the engine's output `index`.
pub open spec fn copies_output(t: OutputTensor, raw: RawOutput, index: u32) -> bool {
    &&& t.name@ == output_name(raw, index)
    &&& t.data@ == raw.data@
    &&& t.shape@ == raw.shape@
    &&& t.datatype@ == datatype_tag(raw.datatype)
}

impl OutputTensor {
    /// The tensor for the engine's output at `index`.
    pub fn from_raw(index: u32, raw: RawOutput) -> (r: OutputTensor)
        ensures
            copies_output(r, raw, index),
    {
        let RawOutput { name, datatype, shape, data } = raw;
        let name = match name {
            Some(n) => n,
            None => {
                proof {
                    reveal_strlit("output_");
                }
                "output_".to_owned().concat(decimal_string(index as u64).as_str())
            },
        };
        OutputTensor { name, data, shape, datatype: datatype_to_string(datatype) }
    }
}

/// Collects a response's outputs: the engine's failure to count them, or to
/// describe any one of them, is the failure of the whole collection.
pub fn collect_outputs(
    count_status: Option<NativeErrorInfo>,
    entries: Vec<Result<RawOutput, NativeErrorInfo>>,
) -> (r: Result<Vec<OutputTensor>, TritonError>)
    requires
        entries@.len() <= u32::MAX,
    ensures
        r is Ok <==> count_status.is_none() && forall|i: int|
            0 <= i < entries@.len() ==> (#[trigger] entries@[i]) is Ok,
        r matches Ok(v) ==> v@.len() == entries@.len() && forall|i: int|
            0 <= i < v@.len() ==> copies_output(
                #[trigger] v@[i],
                entries@[i]->Ok_0,
                i as u32,
            ),
        count_status matches Some(info) ==> (r matches Err(e) && e.kind == ErrorKind::NativeError
            && e.message@ == native_message(info)),
        count_status is None ==> (r matches Err(e) ==> exists|k: int|
            0 <= k < entries@.len() && entries@[k] is Err && (forall|j: int|
                0 <= j < k ==> (#[trigger] entries@[j]) is Ok) && e.code == entries@[k]->Err_0.code
                && e.message@ == native_message(entries@[k]->Err_0)),
        r matches Err(e) ==> e.kind == ErrorKind::NativeError,
{
    if let Some(info) = count_status {
        return Err(TritonError::new(info));
    }
    let ghost all = entries@;
    let mut out: Vec<OutputTensor> = Vec::new();
    let mut rest = entries;
    assert(all.skip(0) =~= all);
    let mut index: usize = 0;
    while rest.len() > 0
        invariant
            index <= all.len(),
            all.len() <= u32::MAX,
            rest@.len() == all.len() - index,
            rest@ == all.skip(index as int),
            count_status.is_none(),
            all == entries@,
            out@.len() == index,
            forall|j: int| 0 <= j < index ==> all[j] is Ok,
            forall|j: int|
                0 <= j < index ==> copies_output(#[trigger] out@[j], all[j]->Ok_0, j as u32),
        decreases rest@.len(),
    {
        assert(rest@[0] == all[index as int]);
        let entry = rest.remove(0);
        assert(rest@ =~= all.skip(index + 1));
        match entry {
            Err(info) => {
                assert(!(entries@[index as int] is Ok));
                return Err(TritonError::new(info));
            },
            Ok(raw) => {
                let t = OutputTensor::from_raw(index as u32, raw);
                out.push(t);
            },
        }
        index = index + 1;
    }
    Ok(out)
}

/// The characters of an optional message.
pub open spec fn message_view(m: Option<String>) -> Option<Seq<char>> {
    match m {
        Some(s) => Some(s@),
        None => None,
    }
}

/// The error a completion reports, or `None` where it delivers outputs: a
/// null response comes first, then the engine's own inference error, then a
/// failure to read the outputs.
pub open spec fn completion_error(
    response: usize,
    response_error: Option<NativeErrorInfo>,
    outputs_error: Option<Seq<char>>,
) -> Option<Seq<char>> {
    if response == 0 {
        Some(null_handle_message("response_ptr"@))
    } else {
        match response_error {
            Some(info) => Some(native_message(info)),
            None => outputs_error,
        }
    }
}

/// The message of a failed output collection, if it failed.
pub open spec fn outputs_error(outputs: Result<Vec<OutputTensor>, TritonError>) -> Option<Seq<char>> {
    match outputs {
        Ok(_) => None,
        Err(e) => Some(e.message@),
    }
}

/// Builds the one result of a completed nested inference from what the
/// engine handed the completion callback: the response handle, the error
/// the response carries, and its collected outputs.
pub fn completion_result(
    response: usize,
    response_error: Option<NativeErrorInfo>,
    outputs: Result<Vec<OutputTensor>, TritonError>,
) -> (r: InferenceResult)
    ensures
        message_view(r.error) == completion_error(response, response_error, outputs_error(outputs)),
        r.error is Some ==> r.outputs@.len() == 0,
        r.error is None ==> (outputs matches Ok(v) && r.outputs@ == v@),
{
    if let Err(e) = InferenceResponse::from_ptr(response) {
        return InferenceResult { outputs: Vec::new(), error: Some(e.message) };
    }
    match response_error {
        Some(info) => {
            let e = TritonError::new(info);
            InferenceResult { outputs: Vec::new(), error: Some(e.message) }
        },
        None => match outputs {
            Ok(v) => InferenceResult { outputs: v, error: None },
            Err(e) => InferenceResult { outputs: Vec::new(), error: Some(e.message) },
        },
    }
}

/// What the waiting caller makes of what the rendezvous gave it: nothing is
/// a `ChannelClosed` error, a result carrying an error is that error, and
/// any other result is returned as it is.
pub fn finish(received: Option<InferenceResult>) -> (r: Result<InferenceResult, TritonError>)
    ensures
        received is None ==> (r matches Err(e) && e.kind == ErrorKind::ChannelClosed
            && e.message@ == channel_closed_message()),
        received matches Some(x) ==> (x.error matches Some(m) ==> (r matches Err(e) && e.kind
            == ErrorKind::NativeError && e.message@ == m@)),
        received matches Some(x) ==> (x.error is None ==> r == Ok::<InferenceResult, TritonError>(
            x,
        )),
{
    match received {
        None => Err(TritonError::channel_closed()),
        Some(x) => {
            if let Some(m) = &x.error {
                Err(TritonError::from_message(m.as_str()))
            } else {
                Ok(x)
            }
        },
    }
}

/// An inference error that the engine reports in a completed response is
/// the error of the completion, whatever its outputs; the caller then gets
/// that error, and the completion carries no outputs.
pub proof fn lemma_engine_error_surfaces(
    response: usize,
    info: NativeErrorInfo,
    outputs_error: Option<Seq<char>>,
)
    requires
        response != 0,
    ensures
        completion_error(response, Some(info), outputs_error) == Some(native_message(info)),
{
}

#[verifier::external_type_specification]
#[verifier::external_body]
#[verifier::reject_recursive_types(T)]
pub struct ExSender<T>(Sender<T>);

#[verifier::external_type_specification]
#[verifier::external_body]
#[verifier::reject_recursive_types(T)]
pub struct ExReceiver<T>(Receiver<T>);

/// Relies on crossbeam's `channel::bounded`: a channel with room for one
/// message, its two ends connected.
#[verifier::external_body]
fn rendezvous() -> (r: (Sender<InferenceResult>, Receiver<InferenceResult>)) {
    bounded(1)
}

/// Relies on crossbeam's `Sender::send`: it fails only where the receiver is
/// gone, and then hands back the very message it was given.
#[verifier::external_body]
fn send_result(tx: &Sender<InferenceResult>, result: InferenceResult) -> (r: Result<
    (),
    InferenceResult,
>)
    ensures
        r matches Err(m) ==> m == result,
{
    tx.send(result).map_err(|e| e.0)
}

/// Relies on crossbeam's `Receiver::recv`: it blocks until a message comes,
/// and gives nothing once every sender is gone with none sent.
#[verifier::external_body]
fn receive_result(rx: &Receiver<InferenceResult>) -> (r: Option<InferenceResult>) {
    rx.recv().ok()
}

/// What a bounded wait on the rendezvous ended with.
#[derive(Debug)]
pub enum Received {
    /// The call's result arrived.
    Delivered(InferenceResult),
    /// The time allowed ran out first.
    TimedOut,
    /// The completion went away without sending.
    Closed,
}

/// Relies on crossbeam's `Receiver::recv_timeout`: it blocks until a message
/// comes, every sender is gone, or `millis` milliseconds have passed.
#[verifier::external_body]
fn receive_result_within(rx: &Receiver<InferenceResult>, millis: u64) -> (r: Received) {
    match rx.recv_timeout(Duration::from_millis(millis)) {
        Ok(x) => Received::Delivered(x),
        Err(RecvTimeoutError::Timeout) => Received::TimedOut,
        Err(RecvTimeoutError::Disconnected) => Received::Closed,
    }
}

/// What the caller of a bounded wait makes of how it ended: as `finish`
/// for a delivered result or a closed channel, and a `TimedOut` error where
/// the time ran out.
pub fn finish_within(received: Received) -> (r: Result<InferenceResult, TritonError>)
    ensures
        received is TimedOut ==> (r matches Err(e) && e.kind == ErrorKind::TimedOut
            && e.message@ == timed_out_message()),
        received is Closed ==> (r matches Err(e) && e.kind == ErrorKind::ChannelClosed
            && e.message@ == channel_closed_message()),
        received matches Received::Delivered(x) ==> (x.error matches Some(m) ==> (r matches Err(
            e,
        ) && e.kind == ErrorKind::NativeError && e.message@ == m@)),
        received matches Received::Delivered(x) ==> (x.error is None ==> r == Ok::<
            InferenceResult,
            TritonError,
        >(x)),
{
    match received {
        Received::Delivered(x) => finish(Some(x)),
        Received::Closed => finish(None),
        Received::TimedOut => {
            proof {
                reveal_strlit("Inference timed out");
            }
            Err(
                TritonError {
                    kind: ErrorKind::TimedOut,
                    code: ERROR_CODE_INTERNAL,
                    message: "Inference timed out".to_owned(),
                },
            )
        },
    }
}

/// What the completion callback of one nested-inference call owns: the
/// sending end of the rendezvous and the call's allocator. The engine holds
/// it as an opaque pointer until the callback takes it back, once.
pub struct InferenceContext {
    tx: Sender<InferenceResult>,
    allocator: ResponseAllocator,
}

/// The waiting end of one nested-inference call.
#[derive(Debug)]
pub struct PendingInference {
    rx: Receiver<InferenceResult>,
}

/// Opens the rendezvous of one nested-inference call: the context the
/// completion consumes, and the end the caller waits on.
pub fn open_inference(allocator: ResponseAllocator) -> (r: (InferenceContext, PendingInference))
    ensures
        r.0.allocator_handle() == allocator.handle(),
{
    let (tx, rx) = rendezvous();
    (InferenceContext { tx, allocator }, PendingInference { rx })
}

impl InferenceContext {
    pub closed spec fn allocator_handle(&self) -> usize {
        self.allocator.handle()
    }

    /// The allocator registered for this call.
    pub fn allocator(&self) -> (r: &ResponseAllocator)
        ensures
            r.handle() == self.allocator_handle(),
    {
        &self.allocator
    }

    /// The completion: builds the call's one result and sends it. The
    /// context, and its allocator with it, is consumed, so a call is
    /// completed at most once. Where the waiting side is gone, the result
    /// comes back unsent.
    pub fn complete(
        self,
        response: usize,
        response_error: Option<NativeErrorInfo>,
        outputs: Result<Vec<OutputTensor>, TritonError>,
    ) -> (r: Result<(), InferenceResult>)
        ensures
            r matches Err(x) ==> message_view(x.error) == completion_error(
                response,
                response_error,
                outputs_error(outputs),
            ) && (x.error is Some ==> x.outputs@.len() == 0) && (x.error is None ==> (
            outputs matches Ok(v) && x.outputs@ == v@)),
    {
        let result = completion_result(response, response_error, outputs);
        send_result(&self.tx, result)
    }
}

impl PendingInference {
    /// Blocks until the call's one result arrives, and hands it over: the
    /// outputs, or the error the completion reported, or `ChannelClosed`
    /// where the completion went away without sending.
    pub fn wait(self) -> (r: Result<InferenceResult, TritonError>)
        ensures
            r matches Ok(x) ==> x.error is None,
            r matches Err(e) ==> e.kind == ErrorKind::ChannelClosed || e.kind
                == ErrorKind::NativeError,
    {
        let received = receive_result(&self.rx);
        finish(received)
    }

    /// As `wait`, but gives up with a `TimedOut` error once `millis`
    /// milliseconds have passed without the result. A completion that comes
    /// later finds no one waiting and is dropped.
    pub fn wait_timeout(self, millis: u64) -> (r: Result<InferenceResult, TritonError>)
        ensures
            r matches Ok(x) ==> x.error is None,
            r matches Err(e) ==> e.kind == ErrorKind::ChannelClosed || e.kind
                == ErrorKind::NativeError || e.kind == ErrorKind::TimedOut,
    {
        let received = receive_result_within(&self.rx, millis);
        finish_within(received)
    }
}

/// The response of a completed nested inference, held by the completion
/// callback until its outputs are copied out.
#[derive(Debug)]
pub struct InferenceResponse {
    handle: usize,
}

impl InferenceResponse {
    pub closed spec fn handle(&self) -> usize {
        self.handle
    }

    /// The response behind a handle; a null handle is a `NullHandle` error.
    pub fn from_ptr(handle: usize) -> (r: Result<InferenceResponse, TritonError>)
        ensures
            r is Ok <==> handle != 0,
            r matches Ok(x) ==> x.handle() == handle,
            r matches Err(e) ==> e.kind == ErrorKind::NullHandle && e.message@ == null_handle_message(
                "response_ptr"@,
            ),
    {
        let h = ensure_handle(handle, "response_ptr")?;
        Ok(InferenceResponse { handle: h })
    }

    /// The engine handle of the response.
    pub fn as_ptr(&self) -> (r: usize)
        ensures
            r == self.handle(),
    {
        self.handle
    }
}

/// The engine's server, borrowed for one dispatch call.
#[derive(Debug)]
pub struct Server {
    handle: usize,
}

impl Server {
    pub closed spec fn handle(&self) -> usize {
        self.handle
    }

    /// The server behind a handle; a null handle is a `NullHandle` error.
    pub fn from_ptr(handle: usize) -> (r: Result<Server, TritonError>)
        ensures
            r is Ok <==> handle != 0,
            r matches Ok(s) ==> s.handle() == handle,
            r matches Err(e) ==> e.kind == ErrorKind::NullHandle && e.message@ == null_handle_message(
                "ptr"@,
            ),
    {
        let h = ensure_handle(handle, "ptr")?;
        Ok(Server { handle: h })
    }

    /// The engine handle of the server.
    pub fn as_ptr(&self) -> (r: usize)
        ensures
            r == self.handle(),
    {
        self.handle
    }
}

} // verus!
