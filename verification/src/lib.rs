//! A stack-discipline allocator over a linear address space.
//!
//! A single top-of-stack cursor marks the first free byte above all live
//! allocations.  Allocations advance the cursor and must begin exactly at
//! it; deallocations roll it back and must end exactly at it.  Every
//! request is gated against the stack's floor and the address space's
//! ceiling, so the cursor never leaves the addressable range.

pub mod allocation;
pub mod stack;
