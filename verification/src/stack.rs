//! The stack allocator: a single top-of-stack cursor and the operations
//! that advance and roll it back.

use vstd::prelude::*;

use crate::allocation::{AllocationError, MemoryBits, MemoryInt, WasmAllocation, MEMORY_INT_MAX};

verus! {

/// Why a deallocation request was rejected.
#[derive(Copy, Clone, Debug, PartialEq, Eq, Structural)]
pub enum DeallocationError {
    /// The range does not end exactly at the current top: only the most
    /// recently pushed allocation may be popped.
    NotAtTop,
    /// Popping the range would move the top below the stack's floor.
    BelowFloor,
}

/// The address of the first free byte above all live allocations: a tagged
/// value with explicit, narrow conversions, so that cursor values are not
/// mixed with arbitrary address arithmetic.
#[derive(Copy, Clone, Debug, PartialEq, Eq, Structural)]
pub struct Top(MemoryInt);

impl Top {
    /// The wrapped address, as a spec value.
    pub closed spec fn value(self) -> MemoryInt {
        self.0
    }
}

impl From<Top> for MemoryInt {
    /// Unwraps the cursor to its address.
    fn from(top: Top) -> (r: MemoryInt) {
        top.0
    }
}

impl vstd::std_specs::convert::FromSpecImpl<Top> for MemoryInt {
    open spec fn obeys_from_spec() -> bool {
        true
    }

    open spec fn from_spec(top: Top) -> MemoryInt {
        top.value()
    }
}

impl From<Top> for MemoryBits {
    /// Widens the cursor's address for comparisons against the ceiling.
    fn from(top: Top) -> (r: MemoryBits) {
        top.0 as MemoryBits
    }
}

impl vstd::std_specs::convert::FromSpecImpl<Top> for MemoryBits {
    open spec fn obeys_from_spec() -> bool {
        true
    }

    open spec fn from_spec(top: Top) -> MemoryBits {
        top.value() as MemoryBits
    }
}

impl From<MemoryInt> for Top {
    /// Tags an address as a top-of-stack cursor.
    fn from(i: MemoryInt) -> (r: Top) {
        Top(i)
    }
}

impl vstd::std_specs::convert::FromSpecImpl<MemoryInt> for Top {
    open spec fn obeys_from_spec() -> bool {
        true
    }

    closed spec fn from_spec(i: MemoryInt) -> Top {
        Top(i)
    }
}

/// The stack allocator.  It owns the single cursor and gates allocation
/// and deallocation requests against it: allocations happen only at the
/// top, and only the top may be rolled back.
#[derive(Copy, Clone, Debug, PartialEq, Eq, Structural)]
pub struct WasmStack {
    top: Top,
}

impl WasmStack {
    /// The current top's address, as a spec value.
    pub closed spec fn top_value(self) -> MemoryInt {
        self.top.0
    }

    /// The floor: the lowest permissible address on this stack.
    pub open spec fn spec_min() -> MemoryInt {
        0
    }

    /// The ceiling of the address space, in the wide type.
    pub open spec fn spec_max() -> MemoryBits {
        MEMORY_INT_MAX
    }

    /// The lowest permissible address on this stack.
    #[verifier::when_used_as_spec(spec_min)]
    pub fn min() -> (r: MemoryInt)
        ensures
            r == Self::spec_min(),
    {
        0
    }

    /// The ceiling of the address space, expressed in the wide type so
    /// that `top + length` can be compared against it without overflow.
    #[verifier::when_used_as_spec(spec_max)]
    pub fn max() -> (r: MemoryBits)
        ensures
            r == Self::spec_max(),
    {
        MEMORY_INT_MAX
    }

    /// An empty stack, with the top at the floor.
    pub fn new() -> (s: WasmStack)
        ensures
            s.top_value() == Self::spec_min(),
    {
        WasmStack { top: Top::from(WasmStack::min()) }
    }

    /// The current top.  Pure: the stack is unchanged.
    pub fn top(self) -> (t: Top)
        ensures
            t.value() == self.top_value(),
    {
        self.top
    }

    /// An allocation request succeeds exactly when the range begins at the
    /// current top and its end stays at or below the ceiling.
    pub open spec fn can_allocate(self, allocation: WasmAllocation) -> bool {
        &&& allocation.offset_spec() == self.top_value()
        &&& self.top_value() + allocation.length_spec() <= Self::spec_max()
    }

    /// A deallocation request succeeds exactly when the range ends at the
    /// current top and begins at or above the floor.
    pub open spec fn can_deallocate(self, allocation: WasmAllocation) -> bool {
        &&& allocation.end_spec() == self.top_value()
        &&& allocation.offset_spec() >= Self::spec_min()
    }

    /// True exactly when `allocation` may be popped: only the most
    /// recently pushed range, ending at the current top, may be removed,
    /// and popping it must not move the top below the floor.
    pub fn deallocation_is_valid(&self, allocation: WasmAllocation) -> (r: bool)
        requires
            allocation.is_valid(),
        ensures
            r == self.can_deallocate(allocation),
    {
        // can't deallocate anywhere other than the top
        if allocation.offset() + allocation.length() != MemoryInt::from(self.top()) {
            false
        }
        // can't deallocate past the floor
        else if allocation.offset() < WasmStack::min() {
            false
        } else {
            true
        }
    }

    /// The allocation that would land at the current top with the given
    /// length, built without moving the cursor; lets a caller preview
    /// where the next allocation would live.
    pub fn next_allocation(&self, length: MemoryInt) -> (r: Result<WasmAllocation, AllocationError>)
        ensures
            match r {
                Ok(a) => {
                    &&& a.offset_spec() == self.top_value()
                    &&& a.length_spec() == length
                    &&& a.is_valid()
                },
                Err(e) => {
                    &&& e == AllocationError::OutOfBounds
                    &&& self.top_value() + length > Self::spec_max()
                },
            },
    {
        WasmAllocation::new(MemoryInt::from(self.top()), length)
    }

    /// Pushes `allocation` onto the stack.  On success the top advances to
    /// the range's end and the previous top — the address at which the new
    /// range begins — is returned; on failure the stack is unchanged.
    pub fn allocate(&mut self, allocation: WasmAllocation) -> (r: Result<Top, AllocationError>)
        ensures
            match r {
                Ok(t) => {
                    &&& old(self).can_allocate(allocation)
                    &&& t.value() == old(self).top_value()
                    &&& final(self).top_value() == allocation.end_spec()
                },
                Err(e) => {
                    &&& *final(self) == *old(self)
                    &&& !old(self).can_allocate(allocation)
                    &&& (e == AllocationError::BadStackAlignment
                        <==> allocation.offset_spec() != old(self).top_value())
                    &&& (e == AllocationError::OutOfBounds
                        <==> allocation.offset_spec() == old(self).top_value()
                            && old(self).top_value() + allocation.length_spec() > Self::spec_max())
                },
            },
    {
        if MemoryInt::from(self.top()) != allocation.offset() {
            Err(AllocationError::BadStackAlignment)
        } else if MemoryBits::from(self.top()) + allocation.length() as MemoryBits > WasmStack::max() {
            Err(AllocationError::OutOfBounds)
        } else {
            let old_top = self.top;
            self.top = Top::from(allocation.offset() + allocation.length());
            Ok(old_top)
        }
    }

    /// Pops `allocation` off the stack.  On success the top rolls back to
    /// the range's start; on failure the stack is unchanged, and the error
    /// says which stack-discipline rule the request broke.
    pub fn deallocate(&mut self, allocation: WasmAllocation) -> (r: Result<(), DeallocationError>)
        requires
            allocation.is_valid(),
        ensures
            match r {
                Ok(_) => {
                    &&& old(self).can_deallocate(allocation)
                    &&& final(self).top_value() == allocation.offset_spec()
                },
                Err(e) => {
                    &&& *final(self) == *old(self)
                    &&& !old(self).can_deallocate(allocation)
                    &&& (e == DeallocationError::NotAtTop
                        <==> allocation.end_spec() != old(self).top_value())
                    &&& (e == DeallocationError::BelowFloor
                        <==> allocation.end_spec() == old(self).top_value()
                            && allocation.offset_spec() < Self::spec_min())
                },
            },
    {
        if self.deallocation_is_valid(allocation) {
            self.top = Top::from(allocation.offset());
            Ok(())
        } else if allocation.offset() + allocation.length() != MemoryInt::from(self.top()) {
            Err(DeallocationError::NotAtTop)
        } else {
            Err(DeallocationError::BelowFloor)
        }
    }

    /// Rebuilds a stack from the last allocation recorded on it: the top
    /// is seeded at the allocation's offset and the allocation is then
    /// pushed onto that seeded stack, leaving the top at the range's end.
    pub fn from_allocation(allocation: WasmAllocation) -> (r: Result<WasmStack, AllocationError>)
        ensures
            match r {
                Ok(s) => {
                    &&& s.top_value() == allocation.end_spec()
                    &&& allocation.is_valid()
                },
                Err(e) => {
                    &&& e == AllocationError::OutOfBounds
                    &&& !allocation.is_valid()
                },
            },
    {
        let mut stack = WasmStack { top: Top::from(allocation.offset()) };
        match stack.allocate(allocation) {
            Ok(_) => Ok(stack),
            Err(e) => Err(e),
        }
    }
}

/// Law: the top of every stack lies between the floor and the ceiling.
/// The bound holds of every `WasmStack` value, so it holds after every
/// sequence of successful `allocate` and `deallocate` calls.
pub proof fn lemma_top_within_bounds(s: WasmStack)
    ensures
        WasmStack::spec_min() <= s.top_value(),
        s.top_value() as MemoryBits <= WasmStack::spec_max(),
{
}

/// Law: pushing an allocation and then popping that same allocation
/// restores the top to its value before the push.  Here `s0` is any stack
/// on which `allocate(allocation)` succeeds, `s1` the stack it leaves
/// behind, and `s2` the stack that `deallocate(allocation)` leaves in
/// turn: the pop is always accepted, and `s2` carries the original top.
pub proof fn lemma_allocate_deallocate_round_trip(
    s0: WasmStack,
    s1: WasmStack,
    s2: WasmStack,
    allocation: WasmAllocation,
)
    requires
        s0.can_allocate(allocation),
        s1.top_value() == allocation.end_spec(),
        s2.top_value() == allocation.offset_spec(),
    ensures
        s1.can_deallocate(allocation),
        s2.top_value() == s0.top_value(),
{
}

/// Law: tagging an address as a top-of-stack cursor and reading the
/// cursor's address back yields the same address; the wrap loses nothing.
pub proof fn lemma_top_wrap_unwrap_identity(i: MemoryInt)
    ensures
        <Top as vstd::std_specs::convert::FromSpec<MemoryInt>>::from_spec(i).value() == i,
{
}

/// Law: a deallocation is accepted only when its range begins at or above
/// the floor; one that begins below the floor is never valid, however it
/// sits against the top.
pub proof fn lemma_floor_protected(s: WasmStack, allocation: WasmAllocation)
    ensures
        s.can_deallocate(allocation) ==> allocation.offset_spec() >= WasmStack::spec_min(),
{
}

impl Default for WasmStack {
    /// An empty stack, with the top at the floor.
    fn default() -> (s: WasmStack)
        ensures
            s.top_value() == WasmStack::spec_min(),
    {
        WasmStack::new()
    }
}

impl Default for Top {
    /// The cursor at the stack's floor.
    fn default() -> (t: Top)
        ensures
            t.value() == WasmStack::spec_min(),
    {
        Top(0)
    }
}

} // verus!
