use std::collections::HashSet;
use vstd::prelude::*;
use vstd::std_specs::hash::*;

use crate::error::{
    carries_message, created, ensure_handle, native_message, null_handle_message, ErrorKind, NativeErrorInfo, TritonError, ERROR_CODE_INTERNAL,
};
use crate::model::{Model, Request};

verus! {

broadcast use group_hash_axioms;

/// The hooks a backend supplies. All but `model_instance_execute` default to
/// doing nothing. The engine never runs `model_instance_execute` twice at
/// once for one instance; different instances may run at once.
pub trait Backend {
    fn initialize() -> Result<(), TritonError> {
        Ok(())
    }

    fn finalize() -> Result<(), TritonError> {
        Ok(())
    }

    fn model_instance_initialize() -> Result<(), TritonError> {
        Ok(())
    }

    fn model_instance_finalize() -> Result<(), TritonError> {
        Ok(())
    }

    fn model_instance_execute(model: Model, requests: &[Request]) -> Result<(), TritonError>;
}

/// The native error to hand back to the engine for a hook's outcome: none on
/// success, an internal error carrying the message otherwise.
pub fn error_to_native(outcome: Result<(), TritonError>) -> (r: Option<NativeErrorInfo>)
    ensures
        outcome is Ok <==> r is None,
        outcome matches Err(e) ==> (r matches Some(info) && info.code == ERROR_CODE_INTERNAL
            && carries_message(info, e.message@)),
{
    match outcome {
        Ok(()) => None,
        Err(e) => Some(NativeErrorInfo { code: ERROR_CODE_INTERNAL, message: Some(e.message) }),
    }
}

/// The typed arguments of an execute call: the instance's model, from the
/// status and handle of its lookup, and the batch's requests.
pub fn execute_arguments(
    model_status: Option<NativeErrorInfo>,
    model_handle: usize,
    request_handles: &[usize],
) -> (r: Result<(Model, Vec<Request>), TritonError>)
    ensures
        r is Ok <==> model_status.is_none() && model_handle != 0 && forall|i: int|
            0 <= i < request_handles@.len() ==> #[trigger] request_handles@[i] != 0,
        r matches Ok(a) ==> a.0.handle() == model_handle && a.1@.len() == request_handles@.len()
            && forall|i: int|
            0 <= i < a.1@.len() ==> (#[trigger] a.1@[i]).handle() == request_handles@[i],
        model_status matches Some(info) ==> (r matches Err(e) && e.kind == ErrorKind::NativeError
            && e.message@ == native_message(info)),
        model_status.is_none() && model_handle == 0 ==> (r matches Err(e) && e.kind
            == ErrorKind::NullHandle && e.message@ == null_handle_message("model"@)),
        model_status.is_none() && model_handle != 0 && (exists|i: int|
            0 <= i < request_handles@.len() && #[trigger] request_handles@[i] == 0) ==> (r matches Err(
            e,
        ) && e.kind == ErrorKind::NullHandle && e.message@ == null_handle_message("request"@)),
{
    let h = created(model_status, model_handle, "model")?;
    let mut requests: Vec<Request> = Vec::new();
    let mut i: usize = 0;
    while i < request_handles.len()
        invariant
            i <= request_handles@.len(),
            requests@.len() == i,
            forall|j: int|
                0 <= j < i ==> (#[trigger] requests@[j]).handle() == request_handles@[j],
            forall|j: int| 0 <= j < i ==> #[trigger] request_handles@[j] != 0,
            model_status.is_none(),
            h == model_handle,
            model_handle != 0,
        decreases request_handles@.len() - i,
    {
        let handle = ensure_handle(request_handles[i], "request")?;
        requests.push(Request::from_ptr(handle));
        i = i + 1;
    }
    Ok((Model::from_ptr(h), requests))
}

/// The backend-level initialize entry point.
pub fn dispatch_initialize<B: Backend>() -> (r: Option<NativeErrorInfo>)
    ensures
        r matches Some(info) ==> info.code == ERROR_CODE_INTERNAL && info.message is Some,
{
    error_to_native(B::initialize())
}

/// The backend-level finalize entry point.
pub fn dispatch_finalize<B: Backend>() -> (r: Option<NativeErrorInfo>)
    ensures
        r matches Some(info) ==> info.code == ERROR_CODE_INTERNAL && info.message is Some,
{
    error_to_native(B::finalize())
}

/// The instance-level initialize entry point.
pub fn dispatch_instance_initialize<B: Backend>() -> (r: Option<NativeErrorInfo>)
    ensures
        r matches Some(info) ==> info.code == ERROR_CODE_INTERNAL && info.message is Some,
{
    error_to_native(B::model_instance_initialize())
}

/// The instance-level finalize entry point.
pub fn dispatch_instance_finalize<B: Backend>() -> (r: Option<NativeErrorInfo>)
    ensures
        r matches Some(info) ==> info.code == ERROR_CODE_INTERNAL && info.message is Some,
{
    error_to_native(B::model_instance_finalize())
}

/// The execute entry point: a failed model lookup is returned as it is and
/// the hook is not called; otherwise the hook runs on the typed arguments and
/// its outcome is handed back.
pub fn dispatch_execute<B: Backend>(
    model_status: Option<NativeErrorInfo>,
    model_handle: usize,
    request_handles: &[usize],
) -> (r: Option<NativeErrorInfo>)
    ensures
        r matches Some(n) ==> n.code == ERROR_CODE_INTERNAL && n.message is Some,
        model_status.is_none() && model_handle == 0 ==> (r matches Some(n) && carries_message(
            n,
            null_handle_message("model"@),
        )),
        model_status matches Some(info) ==> (r matches Some(n) && n.code == ERROR_CODE_INTERNAL
            && carries_message(n, native_message(info))),
{
    match execute_arguments(model_status, model_handle, request_handles) {
        Err(e) => error_to_native(Err(e)),
        Ok((model, requests)) => error_to_native(B::model_instance_execute(model, requests.as_slice())),
    }
}

/// The instances whose execute call is under way.
#[derive(Debug)]
pub struct ExecutionGuard {
    active: HashSet<u64>,
}

impl View for ExecutionGuard {
    type V = Set<u64>;

    closed spec fn view(&self) -> Set<u64> {
        self.active@
    }
}

impl ExecutionGuard {
    pub fn new() -> (r: ExecutionGuard)
        ensures
            r@ == Set::<u64>::empty(),
    {
        ExecutionGuard { active: HashSet::new() }
    }

    /// Marks an execute call of `instance` as begun; refused while one is
    /// already under way for the same instance.
    pub fn enter(&mut self, instance: u64) -> (r: bool)
        ensures
            r == !old(self)@.contains(instance),
            final(self)@ == old(self)@.insert(instance),
    {
        self.active.insert(instance)
    }

    /// Marks the execute call of `instance` as returned.
    pub fn leave(&mut self, instance: u64)
        ensures
            final(self)@ == old(self)@.remove(instance),
    {
        self.active.remove(&instance);
    }

    /// Whether an execute call of `instance` is under way.
    pub fn is_active(&self, instance: u64) -> (r: bool)
        ensures
            r == self@.contains(instance),
    {
        self.active.contains(&instance)
    }
}

/// Execute calls are serialized per instance and free across instances:
/// while one runs for `a`, a second one for `a` is refused, and one for
/// another idle instance `b` is admitted; once `a` returns, `a` is admitted
/// again.
pub proof fn lemma_execute_serialized_per_instance(active: Set<u64>, a: u64, b: u64)
    requires
        !active.contains(a),
        !active.contains(b),
        a != b,
    ensures
        active.insert(a).contains(a),
        !active.insert(a).contains(b),
        !active.insert(a).remove(a).contains(a),
        active.insert(a).remove(a) == active,
{
    assert(active.insert(a).remove(a) =~= active);
}

} // verus!
