//! The stages that act on gas once it has left the cylinder.

use crate::helpers::UNIT;
use crate::EntityId;
use vstd::prelude::*;

pub mod decompression;
pub mod equalization;
pub mod intake;
pub mod nitrogen;
pub mod oxygen;
pub mod usage;

verus! {

/// Gas on its way into the bloodstream of `entity`: how much of it, and
/// which share of it is oxygen and which is nitrogen, all three as
/// fixed-point numbers.
#[derive(Clone, Copy, Debug, PartialEq, Eq, Structural)]
pub struct CirculateGas {
    pub entity: EntityId,
    pub amount: u64,
    pub proportion_of_oxygen: u64,
    pub proportion_of_nitrogen: u64,
}

impl CirculateGas {
    /// Both proportions are proportions: neither exceeds one.
    pub open spec fn wf(self) -> bool {
        &&& self.proportion_of_oxygen <= UNIT
        &&& self.proportion_of_nitrogen <= UNIT
    }

    /// Tells whether the event is well formed.
    pub fn is_well_formed(&self) -> (ok: bool)
        ensures
            ok == self.wf(),
    {
        self.proportion_of_oxygen <= UNIT && self.proportion_of_nitrogen <= UNIT
    }
}

/// Every event in `gases` is well formed.
pub open spec fn gases_wf(gases: Seq<CirculateGas>) -> bool {
    forall|index: int| 0 <= index < gases.len() ==> (#[trigger] gases[index]).wf()
}

} // verus!
