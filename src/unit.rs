use vstd::prelude::*;

verus! {

/// All zero-sized types of this crate implement this trait.
pub trait Unit: Sized {
    /// Sole value of the type.
    const VALUE: Self;
}

impl Unit for () {
    const VALUE: Self = ();
}

} // verus!
