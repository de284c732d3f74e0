//! Virtual input injection from the remote client. The pointer, keyboard and touch handles
//! are driven from here once the transport delivers input packets.

use vstd::prelude::*;

verus! {

/// The injector of remote input; it holds nothing yet.
#[derive(Debug, Clone, Copy, PartialEq, Eq, Structural)]
pub struct VirtualInput;

impl VirtualInput {
    /// A new injector.
    pub fn new() -> (v: Self)
        ensures
            v == VirtualInput,
    {
        VirtualInput
    }
}

} // verus!
