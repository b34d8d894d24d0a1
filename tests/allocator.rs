use triton_ng::allocator::{plan_allocation, releases, AllocationLedger, BUFFER_ALIGN, MEMORY_TYPE_CPU};
use triton_ng::error::{ErrorKind, ERROR_CODE_INTERNAL};

#[test]
fn allocation_is_host_memory_with_fixed_alignment() {
    let p = plan_allocation(40, 2).unwrap();
    assert_eq!(p.byte_size, 40);
    assert_eq!(p.align, BUFFER_ALIGN);
    assert_eq!(p.align, 8);
    assert_eq!(p.memory_type, MEMORY_TYPE_CPU);
    assert_eq!(p.memory_type_id, 0);
}

#[test]
fn zero_sized_allocation_fails() {
    assert_eq!(plan_allocation(0, 0).unwrap_err().kind, ErrorKind::AllocationFailure);
}

#[test]
fn oversized_allocation_fails() {
    assert_eq!(plan_allocation(usize::MAX, 0).unwrap_err().kind, ErrorKind::AllocationFailure);
    assert_eq!(plan_allocation(isize::MAX as usize - 6, 0).unwrap_err().kind, ErrorKind::AllocationFailure);
    assert!(plan_allocation(isize::MAX as usize - 7, 0).is_ok());
}

#[test]
fn release_of_null_or_empty_buffer_is_noop() {
    assert!(!releases(0, 16));
    assert!(!releases(0x1000, 0));
    assert!(releases(0x1000, 16));
}

#[test]
fn allocate_then_release_leaves_nothing_live() {
    let mut ledger = AllocationLedger::new();
    for size in [1usize, 8, 4096] {
        let p = plan_allocation(size, 0).unwrap();
        let addr = 0x1000 * size;
        assert!(ledger.record_allocation(addr, p.byte_size));
        assert_eq!(ledger.live_count(), 1);
        assert!(releases(addr, p.byte_size));
        assert!(ledger.record_release(addr, p.byte_size));
        assert_eq!(ledger.live_count(), 0);
        assert!(!ledger.record_release(addr, p.byte_size));
    }
}

#[test]
fn release_with_wrong_size_is_refused() {
    let mut ledger = AllocationLedger::new();
    assert!(ledger.record_allocation(0x2000, 64));
    assert!(!ledger.record_allocation(0x2000, 64));
    assert!(!ledger.record_release(0x2000, 32));
    assert_eq!(ledger.live_count(), 1);
    assert!(ledger.record_release(0x2000, 64));
}

#[test]
fn degenerate_allocation_error_is_internal() {
    assert_eq!(plan_allocation(0, 0).unwrap_err().code, ERROR_CODE_INTERNAL);
}

#[test]
fn interleaved_pairs_leave_nothing_live() {
    let mut ledger = AllocationLedger::new();
    assert!(ledger.record_allocation(0x100, 8));
    assert!(ledger.record_allocation(0x200, 16));
    assert!(ledger.record_release(0x100, 8));
    assert!(ledger.record_allocation(0x300, 24));
    assert!(ledger.record_release(0x300, 24));
    assert!(ledger.record_release(0x200, 16));
    assert!(!ledger.record_release(0x200, 16));
    assert_eq!(ledger.live_count(), 0);
}
