use std::collections::HashMap;
use vstd::prelude::*;
use vstd::std_specs::hash::*;

use crate::error::{
    created, native_message, null_handle_message, ErrorKind, NativeErrorInfo, TritonError, ERROR_CODE_INTERNAL,
};

verus! {

broadcast use group_hash_axioms;

/// Alignment of every output buffer the allocator provides.
pub const BUFFER_ALIGN: usize = 8;

/// Engine memory type code of host memory, the only kind the allocator provides.
pub const MEMORY_TYPE_CPU: u32 = 0;

/// Whether a buffer of `byte_size` bytes can be laid out with the fixed
/// alignment: it is not empty, and rounded up to the alignment it stays
/// within `isize::MAX`.
pub open spec fn allocatable(byte_size: usize) -> bool {
    byte_size > 0 && byte_size + 7 <= isize::MAX
}

/// How the allocator serves one request for an output buffer.
#[derive(Clone, Copy, Debug, PartialEq, Eq, Structural)]
pub struct AllocationPlan {
    pub byte_size: usize,
    pub align: usize,
    pub memory_type: u32,
    pub memory_type_id: i64,
}

/// Decides how to serve the engine's request for `byte_size` bytes: host
/// memory with the fixed alignment, whatever memory kind was asked for.
/// A degenerate size is an `AllocationFailure`.
pub fn plan_allocation(byte_size: usize, requested_memory_type: u32) -> (r: Result<
    AllocationPlan,
    TritonError,
>)
    ensures
        r is Ok <==> allocatable(byte_size),
        r matches Ok(p) ==> p == (AllocationPlan {
            byte_size,
            align: BUFFER_ALIGN,
            memory_type: MEMORY_TYPE_CPU,
            memory_type_id: 0,
        }),
        r matches Err(e) ==> e.kind == ErrorKind::AllocationFailure && e.code == ERROR_CODE_INTERNAL,
{
    if byte_size == 0 {
        return Err(TritonError::with_kind(ErrorKind::AllocationFailure, "zero-sized output buffer"));
    }
    if byte_size > (isize::MAX as usize) - 7 {
        return Err(TritonError::with_kind(ErrorKind::AllocationFailure, "invalid buffer layout"));
    }
    Ok(AllocationPlan { byte_size, align: BUFFER_ALIGN, memory_type: MEMORY_TYPE_CPU, memory_type_id: 0 })
}

/// Whether a buffer handed back for release is to be freed: only a present
/// buffer whose size could have been allocated; anything else is a no-op.
pub fn releases(buffer: usize, byte_size: usize) -> (r: bool)
    ensures
        r == (buffer != 0 && allocatable(byte_size)),
{
    buffer != 0 && byte_size > 0 && byte_size <= (isize::MAX as usize) - 7
}

/// The allocator registered with the engine for one nested-inference call.
#[derive(Debug)]
pub struct ResponseAllocator {
    handle: usize,
}

impl ResponseAllocator {
    /// The allocator from the outcome of its creation call.
    pub fn new(status: Option<NativeErrorInfo>, handle: usize) -> (r: Result<
        ResponseAllocator,
        TritonError,
    >)
        ensures
            r is Ok <==> status.is_none() && handle != 0,
            r matches Ok(a) ==> a.handle() == handle,
            status matches Some(info) ==> (r matches Err(e) && e.kind == ErrorKind::NativeError
                && e.message@ == native_message(info)),
            status.is_none() && handle == 0 ==> (r matches Err(e) && e.kind
                == ErrorKind::NullHandle && e.message@ == null_handle_message("allocator_ptr"@)),
    {
        let h = created(status, handle, "allocator_ptr")?;
        Ok(ResponseAllocator { handle: h })
    }

    pub closed spec fn handle(&self) -> usize {
        self.handle
    }

    /// The engine handle of the allocator.
    pub fn as_ptr(&self) -> (r: usize)
        ensures
            r == self.handle(),
    {
        self.handle
    }
}

/// A record of the buffers handed out and not yet released, by address,
/// with the size each was allocated with.
#[derive(Debug)]
pub struct AllocationLedger {
    live: HashMap<usize, usize>,
}

impl View for AllocationLedger {
    type V = Map<usize, usize>;

    closed spec fn view(&self) -> Map<usize, usize> {
        self.live@
    }
}

impl AllocationLedger {
    pub fn new() -> (r: AllocationLedger)
        ensures
            r@ == Map::<usize, usize>::empty(),
    {
        AllocationLedger { live: HashMap::new() }
    }

    /// Records a buffer just allocated; refuses an address already live.
    pub fn record_allocation(&mut self, buffer: usize, byte_size: usize) -> (r: bool)
        ensures
            r == !old(self)@.contains_key(buffer),
            r ==> final(self)@ == old(self)@.insert(buffer, byte_size),
            !r ==> final(self)@ == old(self)@,
    {
        if self.live.contains_key(&buffer) {
            false
        } else {
            self.live.insert(buffer, byte_size);
            true
        }
    }

    /// Records a release; accepts it only for a live buffer with the size it
    /// was allocated with, so a buffer is never released twice.
    pub fn record_release(&mut self, buffer: usize, byte_size: usize) -> (r: bool)
        ensures
            r == (old(self)@.contains_key(buffer) && old(self)@[buffer] == byte_size),
            r ==> final(self)@ == old(self)@.remove(buffer),
            !r ==> final(self)@ == old(self)@,
    {
        match self.live.get(&buffer) {
            Some(size) => {
                if *size == byte_size {
                    self.live.remove(&buffer);
                    true
                } else {
                    false
                }
            },
            None => false,
        }
    }

    /// The number of buffers still live.
    pub fn live_count(&self) -> (r: usize)
        ensures
            r == self@.len(),
    {
        self.live.len()
    }
}

/// An allocation recorded at a fresh address and then released with its
/// size leaves the record as it was, and a second release of it is refused.
pub proof fn lemma_allocate_release_balanced(live: Map<usize, usize>, buffer: usize, byte_size: usize)
    requires
        !live.contains_key(buffer),
    ensures
        live.insert(buffer, byte_size).contains_key(buffer),
        live.insert(buffer, byte_size)[buffer] == byte_size,
        live.insert(buffer, byte_size).remove(buffer) == live,
        !live.insert(buffer, byte_size).remove(buffer).contains_key(buffer),
{
    assert(live.insert(buffer, byte_size).remove(buffer) =~= live);
}

/// Any number of allocations at fresh, distinct addresses, once all are
/// recorded and each is released with its own size, leave the record as it
/// was: nothing leaks, and no released address is live any more, so a
/// second release of it is refused.
pub proof fn lemma_allocations_released_balanced(
    live: Map<usize, usize>,
    allocations: Map<usize, usize>,
)
    requires
        live.dom().disjoint(allocations.dom()),
    ensures
        live.union_prefer_right(allocations).remove_keys(allocations.dom()) == live,
        forall|b: usize|
            #[trigger] allocations.contains_key(b) ==> !live.union_prefer_right(
                allocations,
            ).remove_keys(allocations.dom()).contains_key(b),
{
    assert(live.union_prefer_right(allocations).remove_keys(allocations.dom()) =~= live);
}

} // verus!
