//! What differs between the platforms on which the host runs.

use vstd::prelude::*;

verus! {

/// The platform of the host.
#[derive(Debug, Clone, Copy, PartialEq, Eq, Structural)]
pub enum Platform {
    Windows,
    Linux,
}

impl Platform {
    /// By how many slots the virtual table of an object is shifted on this
    /// platform: the number that is added to every slot index.
    pub open spec fn spec_index_bias(&self) -> isize {
        match self {
            Platform::Windows => 0,
            Platform::Linux => 1,
        }
    }

    /// By how many slots the virtual table of an object is shifted on this
    /// platform.
    #[verifier::when_used_as_spec(spec_index_bias)]
    pub fn index_bias(&self) -> (bias: isize)
        ensures
            bias == self.spec_index_bias(),
    {
        match self {
            Platform::Windows => 0,
            Platform::Linux => 1,
        }
    }

    /// The slot at which the method with the slot index `index` is found on
    /// this platform.
    pub fn slot_index(&self, index: isize) -> (slot: isize)
        requires
            index + self.spec_index_bias() <= isize::MAX,
        ensures
            slot == index + self.spec_index_bias(),
    {
        index + self.index_bias()
    }
}

} // verus!
