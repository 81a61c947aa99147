use vstd::prelude::*;

verus! {

/// Can be aimed at.
pub trait Target {
}

/// Can shoot.
pub trait Shoot {
}

/// Can boost.
pub trait Boost {
}

} // verus!
