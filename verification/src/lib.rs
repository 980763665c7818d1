//! A tick-based simulation of how a diver exchanges gas between a diving
//! cylinder, the bloodstream and the surrounding water, and of the damage
//! that follows when the bloodstream leaves its safe envelope.
//!
//! A tick runs six stages in a fixed order. Inhalation draws breaths from
//! cylinders. Equalization moves the pressure in each bloodstream toward
//! that of the water and blends the gas that arrives into it. Intake fills
//! the bloodstream. Decompression loads the lungs with the gas that a fall
//! in pressure sets free, and turns what they cannot take into damage.
//! Usage burns gas. The two hazards turn too much oxygen, too little
//! oxygen and too much nitrogen into damage. [`pipeline::tick`] runs them
//! all; each stage can also be run by itself, on a whole [`world::World`]
//! or on the records of one entity.
//!
//! Every quantity is a fixed-point number counted in millionths (see
//! [`helpers::UNIT`]): each stage is exact integer arithmetic, and where a
//! quotient is not whole it is rounded down. An entity that lacks what a
//! stage needs is passed over by that stage; nothing in here fails.

use crate::circulation::decompression::GasExchangeInLungs;
use crate::circulation::equalization::BloodstreamPressure;
use crate::circulation::nitrogen::NitrogenHazard;
use crate::circulation::oxygen::OxygenHazard;
use crate::circulation::usage::GasUsageRate;
use crate::inhalation::BloodstreamContent;
use crate::position::Depth;
use vstd::prelude::*;

pub mod circulation;
pub mod health;
pub mod helpers;
pub mod inhalation;
pub mod pipeline;
pub mod position;
pub mod world;

verus! {

/// The stable identifier of an entity: a breather, a cylinder, or anything
/// else that carries components.
pub type EntityId = u64;

/// Everything that makes an entity a breather.
#[derive(Clone, Copy, Debug, PartialEq, Eq, Structural)]
pub struct BreatherBundle {
    pub depth: Depth,
    pub bloodstream_content: BloodstreamContent,
    pub bloodstream_pressure: BloodstreamPressure,
    pub gas_usage_rate: GasUsageRate,
    pub oxygen_hazard: OxygenHazard,
    pub nitrogen_hazard: NitrogenHazard,
    pub gas_exchange_in_lungs: GasExchangeInLungs,
}

impl BreatherBundle {
    /// A breather at the surface, under the pressure of the air, with an
    /// empty bloodstream of no capacity that is mixed like air, a body that
    /// burns nothing, the human bands for oxygen and nitrogen without harm,
    /// and lungs that can carry nothing.
    pub open spec fn at_rest() -> BreatherBundle {
        BreatherBundle {
            depth: Depth(0),
            bloodstream_content: BloodstreamContent {
                capacity: 0,
                amount_remaining: 0,
                proportion_of_oxygen: crate::inhalation::AIR_O2_RATIO,
                proportion_of_nitrogen: crate::inhalation::AIR_N2_RATIO,
            },
            bloodstream_pressure: BloodstreamPressure(
                crate::circulation::equalization::ATMOSPHERIC_PRESSURE_BAR,
            ),
            gas_usage_rate: GasUsageRate(0),
            oxygen_hazard: OxygenHazard {
                po2_upper: crate::circulation::oxygen::MAX_PO2_HUMAN,
                po2_lower: crate::circulation::oxygen::MIN_PO2_HUMAN,
                damage_factor: 0,
            },
            nitrogen_hazard: NitrogenHazard {
                n2_upper: crate::circulation::nitrogen::PN2_NARCOSIS_THRESHOLD,
                damage_factor: 0,
            },
            gas_exchange_in_lungs: GasExchangeInLungs { max_load: 0, load: 0, recovery_rate: 0 },
        }
    }
}

impl Default for BreatherBundle {
    /// A breather at rest: each component at its own default.
    fn default() -> (bundle: Self)
        ensures
            bundle == BreatherBundle::at_rest(),
    {
        BreatherBundle {
            depth: Depth::default(),
            bloodstream_content: BloodstreamContent::default(),
            bloodstream_pressure: BloodstreamPressure::default(),
            gas_usage_rate: GasUsageRate::default(),
            oxygen_hazard: OxygenHazard::default(),
            nitrogen_hazard: NitrogenHazard::default(),
            gas_exchange_in_lungs: GasExchangeInLungs::default(),
        }
    }
}

} // verus!
