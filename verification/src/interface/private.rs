//! Keeps the set of transports closed.

use vstd::prelude::*;

verus! {

/// Bound of `Interface` that no type outside this crate can meet.
pub trait Sealed {

}

} // verus!
