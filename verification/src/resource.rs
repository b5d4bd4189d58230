//! The identity of an underlying resource.

use vstd::prelude::*;

verus! {

/// Identifies one instance of the underlying resource by its address.
///
/// A handle stands for a resource that exists: its address is never 0. What
/// lies at the address is no concern of this crate.
#[derive(Clone, Copy, Debug)]
pub struct ResourceHandle {
    address: usize,
}

impl View for ResourceHandle {
    type V = usize;

    closed spec fn view(&self) -> usize {
        self.address
    }
}

impl ResourceHandle {
    #[verifier::type_invariant]
    spec fn is_allocated(self) -> bool {
        self.address != 0
    }

    /// The handle of the resource at `address`, or `None` for the address
    /// 0, which is what a failed allocation leaves.
    pub fn new(address: usize) -> (handle: Option<Self>)
        ensures
            match handle {
                Some(h) => address != 0 && h@ == address,
                None => address == 0,
            },
    {
        if address == 0 {
            None
        } else {
            Some(ResourceHandle { address })
        }
    }

    /// The address of the resource. It is not 0.
    pub fn address(&self) -> (address: usize)
        ensures
            address == self@,
            address != 0,
    {
        proof {
            use_type_invariant(self);
        }
        self.address
    }
}

} // verus!
