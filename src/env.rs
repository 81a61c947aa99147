use vstd::prelude::*;

verus! {

/// Belongs to the Serpulo tech tree.
pub trait Sepro {
}

/// Belongs to the Erekir tech tree.
pub trait Erekir {
}

} // verus!
