//! The sealing trait that keeps `OutlivesRef` implemented only by this crate's types.

use vstd::prelude::*;

verus! {

/// Implemented only by the private-data kinds this crate defines.
pub trait Sealed {}

} // verus!
