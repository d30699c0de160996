//! The seal of the traits of this module.

use vstd::prelude::*;

verus! {

/// Sealed trait to prevent implementation of traits in other crates.
pub trait Sealed {

}

} // verus!
