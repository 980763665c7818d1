//! Where a breather is, as far as respiration cares.

use vstd::prelude::*;

verus! {

/// How far below the surface an entity is, in metres as a fixed-point
/// number. Whoever moves the entity owns this value; respiration only reads
/// it.
#[derive(Clone, Copy, Debug, PartialEq, Eq, Structural)]
pub struct Depth(pub u64);

impl Default for Depth {
    /// At the surface.
    fn default() -> (depth: Self)
        ensures
            depth == Depth(0),
    {
        Depth(0)
    }
}

} // verus!
