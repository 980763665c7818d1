//! What respiration hands to whoever keeps score of health.

use crate::EntityId;
use vstd::prelude::*;

verus! {

/// A request to reduce the health of `target` by `damage`, a fixed-point
/// number. The field is wide enough for any damage factor times any excess
/// of pressure.
#[derive(Clone, Copy, Debug, PartialEq, Eq, Structural)]
pub struct DamageEvent {
    pub target: EntityId,
    pub damage: u128,
}

} // verus!
