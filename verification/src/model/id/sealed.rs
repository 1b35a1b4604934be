use vstd::prelude::*;

verus! {

/// Seals the ID traits so that only the ID types of this crate implement them.
pub trait Sealed {}

} // verus!
