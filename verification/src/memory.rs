//! Architecture independent memory management: address wrappers that keep
//! physical and virtual addresses apart at compile time.

use vstd::prelude::*;

verus! {

/// Represents a physical address.
#[derive(Debug, PartialEq, Eq, Structural, Clone, Copy)]
pub struct PhysicalAddress(pub u64);

impl PhysicalAddress {
    /// Returns the raw numeric value of the address.
    pub fn into(self) -> (raw: u64)
        ensures
            raw == self.0,
    {
        self.0
    }
}

/// Represents a virtual address.
#[derive(Debug, PartialEq, Eq, Structural, Clone, Copy)]
pub struct VirtualAddress(pub u64);

impl VirtualAddress {
    /// Returns the raw numeric value of the address.
    pub fn into(self) -> (raw: u64)
        ensures
            raw == self.0,
    {
        self.0
    }
}

} // verus!
