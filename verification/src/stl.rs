use vstd::prelude::*;

verus! {

/// The game's allocator, for use by standard containers; it refers to the
/// allocator by address.
#[derive(Clone)]
pub struct DLAllocatorForStl(u64);

impl DLAllocatorForStl {
    /// The address of the allocator.
    pub closed spec fn address(&self) -> u64 {
        self.0
    }
}

impl From<u64> for DLAllocatorForStl {
    fn from(address: u64) -> (r: Self)
        ensures
            r.address() == address,
    {
        DLAllocatorForStl(address)
    }
}

impl vstd::std_specs::convert::FromSpecImpl<u64> for DLAllocatorForStl {
    open spec fn obeys_from_spec() -> bool {
        true
    }

    closed spec fn from_spec(address: u64) -> Self {
        DLAllocatorForStl(address)
    }
}

} // verus!
