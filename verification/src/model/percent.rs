//! A number that is known to lie between 0 and 100.

use vstd::prelude::*;

verus! {

/// A number from 0 to 100.
pub(crate) struct Percent {
    pub(crate) value: u8,
}

impl Percent {
    #[verifier::type_invariant]
    pub(crate) open spec fn in_range(&self) -> bool {
        self.value <= 100
    }
}

} // verus!
