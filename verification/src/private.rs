use vstd::prelude::*;

verus! {

/// Seals the crate's public traits so that only types of this crate implement them.
pub trait Sealed {}

} // verus!
