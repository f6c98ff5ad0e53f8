use vstd::prelude::*;

verus! {

/// Seals the capability contract: only identity types of this crate (and
/// mutable borrows of them) may implement it.
pub trait Sealed {}

impl<T: Sealed> Sealed for &mut T {
}

} // verus!
