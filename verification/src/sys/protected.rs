//! The marker that closes the set of realizations.

use vstd::prelude::*;

verus! {

/// A marker for the types that the traits of this module are
/// implemented for: no type outside this crate can carry it.
pub trait Sealed {
}

impl Sealed for u16 {
}

} // verus!
