//! Numbers that need not be whole.
use vstd::prelude::*;

verus! {

/// A number of the protocol. The library hands numbers on and compares none of them.
#[derive(Clone, Copy, Debug, PartialEq, Eq, Structural)]
pub enum Num {
    /// A whole number.
    Whole(i64),
    /// A double, given by its bits.
    Double(u64),
}

impl DeepView for Num {
    type V = Num;

    open spec fn deep_view(&self) -> Num {
        *self
    }
}

} // verus!
