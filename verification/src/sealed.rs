//! The seal on the state tags: only this crate can mark a type as a
//! flight state, so no outside code can fabricate a vehicle in a state
//! it never legally reached.

use vstd::prelude::*;

verus! {

/// Implemented only inside this crate, for exactly the three state
/// markers. The module holding it is private, so no other crate can name
/// it, and therefore none can implement the state trait that requires it.
pub trait Sealed {
}

impl Sealed for crate::typestate::Idle {

}

impl Sealed for crate::typestate::Hovering {

}

impl Sealed for crate::typestate::Flying {

}

} // verus!
