//! The nitrogen hazard: too much nitrogen dazes.

use crate::circulation::equalization::{partial_pressure_spec, BloodstreamPressure};
use crate::health::DamageEvent;
use crate::helpers::{scaled_product, scaled_product_spec};
use crate::inhalation::BloodstreamContent;
use crate::world::{push_some, Components, World};
use crate::EntityId;
use vstd::prelude::*;

verus! {

/// The partial pressure of nitrogen at which narcosis sets in: that of air
/// thirty metres down, in bar.
pub const PN2_NARCOSIS_THRESHOLD: u64 = 3_120_000;

/// The partial pressure of nitrogen that a breather tolerates, in bar, and
/// how much each bar beyond it hurts, both as fixed-point numbers. Narcosis
/// has no lower bound.
#[derive(Clone, Copy, Debug, PartialEq, Eq, Structural)]
pub struct NitrogenHazard {
    pub n2_upper: u64,
    pub damage_factor: u64,
}

/// The harm that nitrogen does to `entity` in one tick: the damage factor
/// times the excess over the upper bound, or nothing where there is none.
pub open spec fn nitrogen_hazard_damage(
    entity: EntityId,
    hazard: NitrogenHazard,
    bloodstream_pressure: BloodstreamPressure,
    bloodstream_content: BloodstreamContent,
) -> Option<DamageEvent> {
    let pressure_from_nitrogen = partial_pressure_spec(
        bloodstream_content.proportion_of_nitrogen,
        bloodstream_pressure,
    );
    if pressure_from_nitrogen > hazard.n2_upper {
        Some(
            DamageEvent {
                target: entity,
                damage: scaled_product_spec(
                    hazard.damage_factor as int,
                    pressure_from_nitrogen - hazard.n2_upper,
                ) as u128,
            },
        )
    } else {
        None
    }
}

impl NitrogenHazard {
    /// Judges the nitrogen in the bloodstream of `entity`.
    pub fn assess(
        &self,
        entity: EntityId,
        bloodstream_pressure: &BloodstreamPressure,
        bloodstream_content: &BloodstreamContent,
    ) -> (damage: Option<DamageEvent>)
        requires
            bloodstream_content.wf(),
        ensures
            damage == nitrogen_hazard_damage(
                entity,
                *self,
                *bloodstream_pressure,
                *bloodstream_content,
            ),
    {
        let pressure_from_nitrogen: u64 = bloodstream_pressure.partial_pressure(
            bloodstream_content.proportion_of_nitrogen,
        );
        if pressure_from_nitrogen > self.n2_upper {
            Some(
                DamageEvent {
                    target: entity,
                    damage: scaled_product(
                        self.damage_factor,
                        pressure_from_nitrogen - self.n2_upper,
                    ),
                },
            )
        } else {
            None
        }
    }
}

impl Default for NitrogenHazard {
    /// The threshold of narcosis, without harm.
    fn default() -> (hazard: Self)
        ensures
            hazard == (NitrogenHazard { n2_upper: PN2_NARCOSIS_THRESHOLD, damage_factor: 0 }),
    {
        NitrogenHazard { n2_upper: PN2_NARCOSIS_THRESHOLD, damage_factor: 0 }
    }
}

impl Components {
    /// The harm that nitrogen does in one tick to the entity `entity` that
    /// carries this record. An entity without a hazard, a pressure or a
    /// bloodstream takes none.
    pub open spec fn nitrogen_damage(self, entity: EntityId) -> Option<DamageEvent> {
        match (self.nitrogen_hazard, self.bloodstream_pressure, self.bloodstream_content) {
            (Some(hazard), Some(bloodstream_pressure), Some(bloodstream_content)) => {
                nitrogen_hazard_damage(entity, hazard, bloodstream_pressure, bloodstream_content)
            },
            _ => None,
        }
    }
}

/// The harm that nitrogen does in one tick, entity by entity in the order of
/// their identifiers: at most one event for each.
pub open spec fn nitrogen_narcosis_spec(world: Seq<Components>) -> Seq<DamageEvent>
    decreases world.len(),
{
    if world.len() == 0 {
        Seq::empty()
    } else {
        push_some(
            nitrogen_narcosis_spec(world.drop_last()),
            world.last().nitrogen_damage((world.len() - 1) as EntityId),
        )
    }
}

/// The nitrogen hazard stage: judges every breather and appends the harm
/// done to `damage_events`. The world is only read.
pub fn nitrogen_narcosis(world: &World, damage_events: &mut Vec<DamageEvent>)
    requires
        world.wf(),
    ensures
        final(damage_events)@ == old(damage_events)@ + nitrogen_narcosis_spec(world@),
{
    let ghost damage_before = damage_events@;
    let mut index: usize = 0;
    while index < world.len()
        invariant
            index <= world@.len(),
            world.wf(),
            damage_events@ == damage_before + nitrogen_narcosis_spec(world@.take(index as int)),
        decreases world@.len() - index,
    {
        let components = world.get(index as u64);
        proof {
            assert(world@.take(index + 1).drop_last() == world@.take(index as int));
        }
        match (
            components.nitrogen_hazard,
            components.bloodstream_pressure,
            components.bloodstream_content,
        ) {
            (Some(hazard), Some(bloodstream_pressure), Some(bloodstream_content)) => {
                let damage = hazard.assess(
                    index as u64,
                    &bloodstream_pressure,
                    &bloodstream_content,
                );
                match damage {
                    Some(damage) => {
                        damage_events.push(damage);
                    },
                    None => {},
                }
            },
            _ => {},
        }
        index += 1;
    }
    proof {
        assert(world@.take(index as int) == world@);
    }
}

/// Nitrogen harms exactly when its partial pressure lies strictly above
/// the upper bound, and then by the damage factor times the excess.
pub proof fn lemma_nitrogen_harms_iff_above_bound(
    entity: EntityId,
    hazard: NitrogenHazard,
    bloodstream_pressure: BloodstreamPressure,
    bloodstream_content: BloodstreamContent,
)
    ensures
        ({
            let pressure_from_nitrogen = partial_pressure_spec(
                bloodstream_content.proportion_of_nitrogen,
                bloodstream_pressure,
            );
            let damage = nitrogen_hazard_damage(
                entity,
                hazard,
                bloodstream_pressure,
                bloodstream_content,
            );
            &&& damage is Some <==> pressure_from_nitrogen > hazard.n2_upper
            &&& damage matches Some(event) ==> event.target == entity && event.damage
                == scaled_product_spec(
                hazard.damage_factor as int,
                pressure_from_nitrogen - hazard.n2_upper,
            ) as u128
        }),
{
}

} // verus!
