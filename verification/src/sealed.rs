//! Seals the traits that only a chip's own drivers implement.

use vstd::prelude::*;

verus! {

/// Implemented by a chip's own pins and driver modes.
pub trait Sealed {

}

} // verus!
