use wasm_stack::allocation::{AllocationError, MemoryBits, MemoryInt, WasmAllocation};
use wasm_stack::stack::{DeallocationError, Top, WasmStack};

fn valid(offset: MemoryInt, length: MemoryInt) -> WasmAllocation {
    WasmAllocation::new(offset, length).expect("range fits the address space")
}

fn top_of(stack: &WasmStack) -> MemoryInt {
    MemoryInt::from(stack.top())
}

#[test]
fn fresh_stack_starts_at_floor() {
    let stack = WasmStack::new();
    assert_eq!(top_of(&stack), WasmStack::min());
    assert_eq!(WasmStack::min(), 0);
}

#[test]
fn floor_and_ceiling_constants() {
    assert_eq!(WasmStack::min(), 0u32);
    assert_eq!(WasmStack::max(), 0xffff_ffffu64);
}

#[test]
fn default_stack_matches_new() {
    let stack = WasmStack::default();
    assert_eq!(top_of(&stack), 0);
    assert_eq!(MemoryInt::from(Top::default()), 0);
}

#[test]
fn top_conversions_carry_the_address() {
    let top = Top::from(7u32);
    assert_eq!(MemoryInt::from(top), 7u32);
    assert_eq!(MemoryBits::from(top), 7u64);
}

#[test]
fn allocation_factory_accepts_representable_range() {
    let allocation = valid(3, 16);
    assert_eq!(allocation.offset(), 3);
    assert_eq!(allocation.length(), 16);
}

#[test]
fn allocation_factory_accepts_range_ending_at_ceiling() {
    let allocation = valid(u32::MAX - 8, 8);
    assert_eq!(allocation.offset(), u32::MAX - 8);
    assert_eq!(allocation.length(), 8);
}

#[test]
fn allocation_factory_rejects_unrepresentable_range() {
    assert_eq!(
        WasmAllocation::new(u32::MAX, 1),
        Err(AllocationError::OutOfBounds)
    );
}

#[test]
fn allocate_advances_top_and_returns_previous_top() {
    let mut stack = WasmStack::new();
    let first = stack.allocate(valid(0, 10)).expect("begins at the top");
    assert_eq!(MemoryInt::from(first), 0);
    assert_eq!(top_of(&stack), 10);

    let second = stack.allocate(valid(10, 5)).expect("begins at the top");
    assert_eq!(MemoryInt::from(second), 10);
    assert_eq!(top_of(&stack), 15);
}

#[test]
fn allocate_rejects_misaligned_offset() {
    let mut stack = WasmStack::from_allocation(valid(0, 10)).expect("fits");
    assert_eq!(top_of(&stack), 10);
    assert_eq!(
        stack.allocate(valid(12, 4)),
        Err(AllocationError::BadStackAlignment)
    );
    assert_eq!(top_of(&stack), 10);
}

#[test]
fn next_allocation_rejects_range_past_ceiling() {
    // With the ceiling at u32::MAX and the stack 10 bytes below it, a
    // 20-byte request would overrun the address space.
    let below_ceiling = u32::MAX - 10;
    let stack = WasmStack::from_allocation(valid(0, below_ceiling)).expect("fits");
    assert_eq!(top_of(&stack), below_ceiling);
    assert_eq!(
        stack.next_allocation(20),
        Err(AllocationError::OutOfBounds)
    );
    assert_eq!(top_of(&stack), below_ceiling);
}

#[test]
fn next_allocation_previews_the_top_without_moving_it() {
    let stack = WasmStack::from_allocation(valid(0, 10)).expect("fits");
    let preview = stack.next_allocation(5).expect("fits");
    assert_eq!(preview.offset(), 10);
    assert_eq!(preview.length(), 5);
    assert_eq!(top_of(&stack), 10);
}

#[test]
fn allocate_then_deallocate_restores_top() {
    let mut stack = WasmStack::new();
    stack.allocate(valid(0, 10)).expect("begins at the top");
    let before: MemoryInt = top_of(&stack);

    let pushed = valid(10, 20);
    stack.allocate(pushed).expect("begins at the top");
    assert_eq!(top_of(&stack), 30);

    stack.deallocate(pushed).expect("sits at the top");
    assert_eq!(top_of(&stack), before);
}

#[test]
fn deallocate_rejects_range_not_at_top() {
    let mut stack = WasmStack::from_allocation(valid(40, 10)).expect("fits");
    assert_eq!(top_of(&stack), 50);

    let stale = valid(30, 10);
    assert!(!stack.deallocation_is_valid(stale));
    assert_eq!(stack.deallocate(stale), Err(DeallocationError::NotAtTop));
    assert_eq!(top_of(&stack), 50);
}

#[test]
fn deallocation_is_valid_accepts_the_live_top_range() {
    let live = valid(40, 10);
    let stack = WasmStack::from_allocation(live).expect("fits");
    assert!(stack.deallocation_is_valid(live));
}

#[test]
fn from_allocation_resumes_a_recorded_stack() {
    let stack = WasmStack::from_allocation(valid(100, 28)).expect("fits");
    assert_eq!(top_of(&stack), 128);
}

#[test]
fn top_stays_within_bounds_across_a_call_sequence() {
    let mut stack = WasmStack::new();
    stack.allocate(valid(0, 64)).expect("begins at the top");
    assert!(top_of(&stack) >= WasmStack::min());
    assert!(MemoryBits::from(stack.top()) <= WasmStack::max());
    stack.allocate(valid(64, 16)).expect("begins at the top");
    assert!(top_of(&stack) >= WasmStack::min());
    assert!(MemoryBits::from(stack.top()) <= WasmStack::max());
    stack.allocate(valid(80, 1)).expect("begins at the top");
    assert!(top_of(&stack) >= WasmStack::min());
    assert!(MemoryBits::from(stack.top()) <= WasmStack::max());
    stack.deallocate(valid(80, 1)).expect("sits at the top");
    assert!(top_of(&stack) >= WasmStack::min());
    assert!(MemoryBits::from(stack.top()) <= WasmStack::max());
    assert_eq!(top_of(&stack), 80);
}
