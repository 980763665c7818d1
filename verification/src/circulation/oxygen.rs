//! The oxygen hazard: too much oxygen poisons, too little starves.

use crate::circulation::equalization::{partial_pressure_spec, BloodstreamPressure};
use crate::health::DamageEvent;
use crate::helpers::{scaled_product, scaled_product_spec};
use crate::inhalation::BloodstreamContent;
use crate::world::{push_some, Components, World};
use crate::EntityId;
use vstd::prelude::*;

verus! {

/// The highest partial pressure of oxygen that a human takes without harm,
/// in bar.
pub const MAX_PO2_HUMAN: u64 = 1_400_000;

/// The lowest partial pressure of oxygen that a human takes without harm,
/// in bar.
pub const MIN_PO2_HUMAN: u64 = 160_000;

/// The band of partial pressures of oxygen that a breather tolerates, in
/// bar, and how much each bar outside of it hurts, all three as fixed-point
/// numbers.
#[derive(Clone, Copy, Debug, PartialEq, Eq, Structural)]
pub struct OxygenHazard {
    pub po2_upper: u64,
    pub po2_lower: u64,
    pub damage_factor: u64,
}

/// The harm that oxygen does to `entity` in one tick: the damage factor
/// times the excess over the upper bound (toxicity), else the damage factor
/// times the deficit under the lower bound (hypoxia), else nothing.
pub open spec fn oxygen_hazard_damage(
    entity: EntityId,
    hazard: OxygenHazard,
    bloodstream_pressure: BloodstreamPressure,
    bloodstream_content: BloodstreamContent,
) -> Option<DamageEvent> {
    let pressure_from_oxygen = partial_pressure_spec(
        bloodstream_content.proportion_of_oxygen,
        bloodstream_pressure,
    );
    if pressure_from_oxygen > hazard.po2_upper {
        Some(
            DamageEvent {
                target: entity,
                damage: scaled_product_spec(
                    hazard.damage_factor as int,
                    pressure_from_oxygen - hazard.po2_upper,
                ) as u128,
            },
        )
    } else if pressure_from_oxygen < hazard.po2_lower {
        Some(
            DamageEvent {
                target: entity,
                damage: scaled_product_spec(
                    hazard.damage_factor as int,
                    hazard.po2_lower - pressure_from_oxygen,
                ) as u128,
            },
        )
    } else {
        None
    }
}

impl OxygenHazard {
    /// Judges the oxygen in the bloodstream of `entity`.
    pub fn assess(
        &self,
        entity: EntityId,
        bloodstream_pressure: &BloodstreamPressure,
        bloodstream_content: &BloodstreamContent,
    ) -> (damage: Option<DamageEvent>)
        requires
            bloodstream_content.wf(),
        ensures
            damage == oxygen_hazard_damage(
                entity,
                *self,
                *bloodstream_pressure,
                *bloodstream_content,
            ),
    {
        let pressure_from_oxygen: u64 = bloodstream_pressure.partial_pressure(
            bloodstream_content.proportion_of_oxygen,
        );
        if pressure_from_oxygen > self.po2_upper {
            Some(
                DamageEvent {
                    target: entity,
                    damage: scaled_product(
                        self.damage_factor,
                        pressure_from_oxygen - self.po2_upper,
                    ),
                },
            )
        } else if pressure_from_oxygen < self.po2_lower {
            Some(
                DamageEvent {
                    target: entity,
                    damage: scaled_product(
                        self.damage_factor,
                        self.po2_lower - pressure_from_oxygen,
                    ),
                },
            )
        } else {
            None
        }
    }
}

impl Default for OxygenHazard {
    /// The human band, without harm.
    fn default() -> (hazard: Self)
        ensures
            hazard == (OxygenHazard {
                po2_upper: MAX_PO2_HUMAN,
                po2_lower: MIN_PO2_HUMAN,
                damage_factor: 0,
            }),
    {
        OxygenHazard { po2_upper: MAX_PO2_HUMAN, po2_lower: MIN_PO2_HUMAN, damage_factor: 0 }
    }
}

impl Components {
    /// The harm that oxygen does in one tick to the entity `entity` that
    /// carries this record. An entity without a hazard, a pressure or a
    /// bloodstream takes none.
    pub open spec fn oxygen_damage(self, entity: EntityId) -> Option<DamageEvent> {
        match (self.oxygen_hazard, self.bloodstream_pressure, self.bloodstream_content) {
            (Some(hazard), Some(bloodstream_pressure), Some(bloodstream_content)) => {
                oxygen_hazard_damage(entity, hazard, bloodstream_pressure, bloodstream_content)
            },
            _ => None,
        }
    }
}

/// The harm that oxygen does in one tick, entity by entity in the order of
/// their identifiers: at most one event for each.
pub open spec fn oxygen_damage_spec(world: Seq<Components>) -> Seq<DamageEvent>
    decreases world.len(),
{
    if world.len() == 0 {
        Seq::empty()
    } else {
        push_some(
            oxygen_damage_spec(world.drop_last()),
            world.last().oxygen_damage((world.len() - 1) as EntityId),
        )
    }
}

/// The oxygen hazard stage: judges every breather and appends the harm
/// done to `damage_events`. The world is only read.
pub fn oxygen_damage(world: &World, damage_events: &mut Vec<DamageEvent>)
    requires
        world.wf(),
    ensures
        final(damage_events)@ == old(damage_events)@ + oxygen_damage_spec(world@),
{
    let ghost damage_before = damage_events@;
    let mut index: usize = 0;
    while index < world.len()
        invariant
            index <= world@.len(),
            world.wf(),
            damage_events@ == damage_before + oxygen_damage_spec(world@.take(index as int)),
        decreases world@.len() - index,
    {
        let components = world.get(index as u64);
        proof {
            assert(world@.take(index + 1).drop_last() == world@.take(index as int));
        }
        match (
            components.oxygen_hazard,
            components.bloodstream_pressure,
            components.bloodstream_content,
        ) {
            (Some(hazard), Some(bloodstream_pressure), Some(bloodstream_content)) => {
                let damage = hazard.assess(
                    index as u64,
                    &bloodstream_pressure,
                    &bloodstream_content,
                );
                match damage {
                    Some(damage) => {
                        damage_events.push(damage);
                    },
                    None => {},
                }
            },
            _ => {},
        }
        index += 1;
    }
    proof {
        assert(world@.take(index as int) == world@);
    }
}

/// Oxygen harms exactly when its partial pressure lies strictly outside the
/// band from the lower to the upper bound, and then by the damage factor
/// times the distance to the bound that was crossed, the upper one first.
pub proof fn lemma_oxygen_harms_iff_outside_band(
    entity: EntityId,
    hazard: OxygenHazard,
    bloodstream_pressure: BloodstreamPressure,
    bloodstream_content: BloodstreamContent,
)
    ensures
        ({
            let pressure_from_oxygen = partial_pressure_spec(
                bloodstream_content.proportion_of_oxygen,
                bloodstream_pressure,
            );
            let damage = oxygen_hazard_damage(
                entity,
                hazard,
                bloodstream_pressure,
                bloodstream_content,
            );
            &&& damage is Some <==> pressure_from_oxygen > hazard.po2_upper || pressure_from_oxygen
                < hazard.po2_lower
            &&& damage matches Some(event) ==> event.target == entity
            &&& pressure_from_oxygen > hazard.po2_upper ==> damage->0.damage
                == scaled_product_spec(
                hazard.damage_factor as int,
                pressure_from_oxygen - hazard.po2_upper,
            ) as u128
            &&& pressure_from_oxygen <= hazard.po2_upper && pressure_from_oxygen < hazard.po2_lower
                ==> damage->0.damage == scaled_product_spec(
                hazard.damage_factor as int,
                hazard.po2_lower - pressure_from_oxygen,
            ) as u128
        }),
{
}

} // verus!
