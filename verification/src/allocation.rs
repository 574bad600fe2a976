//! The address space's integer types and validated allocation ranges.

use vstd::prelude::*;

verus! {

/// An unsigned byte offset within the linear address space.
pub type MemoryInt = u32;

/// A wider unsigned integer used for sums and comparisons against the
/// address-space ceiling without risking overflow of `MemoryInt`.
pub type MemoryBits = u64;

/// The ceiling of the address space, expressed in the wide type so that
/// `offset + length` sums can be compared against it without overflow.
pub const MEMORY_INT_MAX: MemoryBits = 0xffff_ffff;

/// Why an allocation request was rejected.
#[derive(Copy, Clone, Debug, PartialEq, Eq, Structural)]
pub enum AllocationError {
    /// The requested range does not begin exactly at the current top.
    BadStackAlignment,
    /// The requested range would extend past the address-space ceiling.
    OutOfBounds,
}

/// A contiguous byte range `[offset, offset + length)` within the address
/// space.  Values are built only through [`WasmAllocation::new`], which
/// rejects a range whose end is not representable, so every value in
/// circulation satisfies [`WasmAllocation::is_valid`].
#[derive(Copy, Clone, Debug, PartialEq, Eq, Structural)]
pub struct WasmAllocation {
    offset: MemoryInt,
    length: MemoryInt,
}

impl WasmAllocation {
    /// The range's first byte, as a spec value.
    pub closed spec fn offset_spec(self) -> MemoryInt {
        self.offset
    }

    /// The range's length in bytes, as a spec value.
    pub closed spec fn length_spec(self) -> MemoryInt {
        self.length
    }

    /// The address one past the range's last byte.
    pub open spec fn end_spec(self) -> int {
        self.offset_spec() + self.length_spec()
    }

    /// The range ends at or below the address-space ceiling.
    pub open spec fn is_valid(self) -> bool {
        self.end_spec() <= MEMORY_INT_MAX
    }

    /// Builds the range `[offset, offset + length)`, rejecting one whose
    /// end would exceed the address-space ceiling.
    pub fn new(offset: MemoryInt, length: MemoryInt) -> (r: Result<WasmAllocation, AllocationError>)
        ensures
            match r {
                Ok(a) => {
                    &&& a.offset_spec() == offset
                    &&& a.length_spec() == length
                    &&& a.is_valid()
                },
                Err(e) => {
                    &&& e == AllocationError::OutOfBounds
                    &&& offset + length > MEMORY_INT_MAX
                },
            },
    {
        if offset as MemoryBits + length as MemoryBits > MEMORY_INT_MAX {
            Err(AllocationError::OutOfBounds)
        } else {
            Ok(WasmAllocation { offset, length })
        }
    }

    /// The range's first byte.
    pub fn offset(&self) -> (r: MemoryInt)
        ensures
            r == self.offset_spec(),
    {
        self.offset
    }

    /// The range's length in bytes.
    pub fn length(&self) -> (r: MemoryInt)
        ensures
            r == self.length_spec(),
    {
        self.length
    }
}

} // verus!
