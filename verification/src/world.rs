//! The arena that the stages work on: one record of components per entity,
//! found by the entity's identifier.

use crate::circulation::decompression::GasExchangeInLungs;
use crate::circulation::equalization::BloodstreamPressure;
use crate::circulation::nitrogen::NitrogenHazard;
use crate::circulation::oxygen::OxygenHazard;
use crate::circulation::usage::GasUsageRate;
use crate::inhalation::{BloodstreamContent, DivingCylinder, EquippedTank};
use crate::position::Depth;
use crate::{BreatherBundle, EntityId};
use vstd::prelude::*;

verus! {

/// What one entity carries. Each component may be missing: a stage passes
/// over an entity that lacks what the stage needs.
#[derive(Clone, Copy, Debug, PartialEq, Eq)]
pub struct Components {
    pub depth: Option<Depth>,
    pub bloodstream_content: Option<BloodstreamContent>,
    pub bloodstream_pressure: Option<BloodstreamPressure>,
    pub gas_usage_rate: Option<GasUsageRate>,
    pub oxygen_hazard: Option<OxygenHazard>,
    pub nitrogen_hazard: Option<NitrogenHazard>,
    pub gas_exchange_in_lungs: Option<GasExchangeInLungs>,
    pub equipped_tank: Option<EquippedTank>,
    pub diving_cylinder: Option<DivingCylinder>,
}

impl Components {
    /// The record of an entity that carries nothing.
    pub open spec fn none() -> Components {
        Components {
            depth: None,
            bloodstream_content: None,
            bloodstream_pressure: None,
            gas_usage_rate: None,
            oxygen_hazard: None,
            nitrogen_hazard: None,
            gas_exchange_in_lungs: None,
            equipped_tank: None,
            diving_cylinder: None,
        }
    }

    /// The record of a breather: every component of `bundle`, and the link
    /// to a cylinder where one is equipped.
    pub open spec fn of_breather(
        bundle: BreatherBundle,
        equipped_tank: Option<EquippedTank>,
    ) -> Components {
        Components {
            depth: Some(bundle.depth),
            bloodstream_content: Some(bundle.bloodstream_content),
            bloodstream_pressure: Some(bundle.bloodstream_pressure),
            gas_usage_rate: Some(bundle.gas_usage_rate),
            oxygen_hazard: Some(bundle.oxygen_hazard),
            nitrogen_hazard: Some(bundle.nitrogen_hazard),
            gas_exchange_in_lungs: Some(bundle.gas_exchange_in_lungs),
            equipped_tank,
            diving_cylinder: None,
        }
    }

    /// The record of a cylinder.
    pub open spec fn of_cylinder(cylinder: DivingCylinder) -> Components {
        Components { diving_cylinder: Some(cylinder), ..Components::none() }
    }

    /// Every component that is there is well formed.
    pub open spec fn wf(self) -> bool {
        &&& self.bloodstream_content matches Some(content) ==> content.wf()
        &&& self.diving_cylinder matches Some(cylinder) ==> cylinder.wf()
        &&& self.gas_exchange_in_lungs matches Some(lungs) ==> lungs.wf()
    }

    /// Tells whether the record is well formed.
    pub fn is_well_formed(&self) -> (ok: bool)
        ensures
            ok == self.wf(),
    {
        let content_ok = match &self.bloodstream_content {
            Some(content) => content.is_well_formed(),
            None => true,
        };
        let cylinder_ok = match &self.diving_cylinder {
            Some(cylinder) => cylinder.is_well_formed(),
            None => true,
        };
        let lungs_ok = match &self.gas_exchange_in_lungs {
            Some(lungs) => lungs.is_well_formed(),
            None => true,
        };
        content_ok && cylinder_ok && lungs_ok
    }

    /// Makes the record of a breather.
    pub fn breather(bundle: BreatherBundle, equipped_tank: Option<EquippedTank>) -> (components:
        Components)
        ensures
            components == Components::of_breather(bundle, equipped_tank),
    {
        Components {
            depth: Some(bundle.depth),
            bloodstream_content: Some(bundle.bloodstream_content),
            bloodstream_pressure: Some(bundle.bloodstream_pressure),
            gas_usage_rate: Some(bundle.gas_usage_rate),
            oxygen_hazard: Some(bundle.oxygen_hazard),
            nitrogen_hazard: Some(bundle.nitrogen_hazard),
            gas_exchange_in_lungs: Some(bundle.gas_exchange_in_lungs),
            equipped_tank,
            diving_cylinder: None,
        }
    }

    /// Makes the record of a cylinder.
    pub fn cylinder(cylinder: DivingCylinder) -> (components: Components)
        ensures
            components == Components::of_cylinder(cylinder),
    {
        Components {
            depth: None,
            bloodstream_content: None,
            bloodstream_pressure: None,
            gas_usage_rate: None,
            oxygen_hazard: None,
            nitrogen_hazard: None,
            gas_exchange_in_lungs: None,
            equipped_tank: None,
            diving_cylinder: Some(cylinder),
        }
    }
}

impl Components {
    /// What respiration may make of a record. It leaves the depth, the
    /// usage rate, both hazards and the link to the cylinder alone. It
    /// neither adds nor removes a component. Of a bloodstream it keeps the
    /// capacity, of lungs the maximal load and the recovery rate, and of a
    /// cylinder everything but the amount, which it may only lower.
    pub open spec fn may_become(self, after: Components) -> bool {
        &&& after.depth == self.depth
        &&& after.gas_usage_rate == self.gas_usage_rate
        &&& after.oxygen_hazard == self.oxygen_hazard
        &&& after.nitrogen_hazard == self.nitrogen_hazard
        &&& after.equipped_tank == self.equipped_tank
        &&& after.bloodstream_pressure is Some <==> self.bloodstream_pressure is Some
        &&& match (self.bloodstream_content, after.bloodstream_content) {
            (Some(content), Some(content_after)) => content_after.capacity == content.capacity,
            (None, None) => true,
            _ => false,
        }
        &&& match (self.gas_exchange_in_lungs, after.gas_exchange_in_lungs) {
            (Some(lungs), Some(lungs_after)) => {
                &&& lungs_after.max_load == lungs.max_load
                &&& lungs_after.recovery_rate == lungs.recovery_rate
            },
            (None, None) => true,
            _ => false,
        }
        &&& match (self.diving_cylinder, after.diving_cylinder) {
            (Some(cylinder), Some(cylinder_after)) => {
                &&& cylinder_after.capacity == cylinder.capacity
                &&& cylinder_after.proportion_of_oxygen == cylinder.proportion_of_oxygen
                &&& cylinder_after.proportion_of_nitrogen == cylinder.proportion_of_nitrogen
                &&& cylinder_after.amount_remaining <= cylinder.amount_remaining
            },
            (None, None) => true,
            _ => false,
        }
    }
}

impl Default for Components {
    /// The record of an entity that carries nothing.
    fn default() -> (components: Self)
        ensures
            components == Components::none(),
    {
        Components {
            depth: None,
            bloodstream_content: None,
            bloodstream_pressure: None,
            gas_usage_rate: None,
            oxygen_hazard: None,
            nitrogen_hazard: None,
            gas_exchange_in_lungs: None,
            equipped_tank: None,
            diving_cylinder: None,
        }
    }
}

/// What `entity` carries in `world`: its record, or the empty record where
/// no such entity exists.
pub open spec fn lookup(world: Seq<Components>, entity: EntityId) -> Components {
    if (entity as int) < world.len() {
        world[entity as int]
    } else {
        Components::none()
    }
}

/// The world in which `entity` carries `components`. A world without such
/// an entity stays as it is.
pub open spec fn store(
    world: Seq<Components>,
    entity: EntityId,
    components: Components,
) -> Seq<Components> {
    if (entity as int) < world.len() {
        world.update(entity as int, components)
    } else {
        world
    }
}

/// `events` with `event` at its end, where there is one.
pub open spec fn push_some<T>(events: Seq<T>, event: Option<T>) -> Seq<T> {
    match event {
        Some(event) => events.push(event),
        None => events,
    }
}

/// Every record in `world` is well formed.
pub open spec fn world_wf(world: Seq<Components>) -> bool {
    forall|entity: int| 0 <= entity < world.len() ==> (#[trigger] world[entity]).wf()
}

/// What respiration may make of a world: it keeps every entity, and makes
/// of each record only what it may.
pub open spec fn world_may_become(before: Seq<Components>, after: Seq<Components>) -> bool {
    &&& after.len() == before.len()
    &&& forall|entity: int|
        0 <= entity < before.len() ==> (#[trigger] before[entity]).may_become(after[entity])
}

/// What respiration may do in one step, it may do in none and in several:
/// every world may become itself, and what a world may become by way of
/// another world, it may become.
pub proof fn lemma_world_may_become_in_steps(
    before: Seq<Components>,
    between: Seq<Components>,
    after: Seq<Components>,
)
    ensures
        world_may_become(before, before),
        world_may_become(before, between) && world_may_become(between, after) ==> world_may_become(
            before,
            after,
        ),
{
}

/// All entities, each with what it carries. An entity's identifier is its
/// place in `entities`, and stays so for the life of the world.
pub struct World {
    pub entities: Vec<Components>,
}

impl View for World {
    type V = Seq<Components>;

    open spec fn view(&self) -> Seq<Components> {
        self.entities@
    }
}

impl World {
    /// Every record in the world is well formed.
    pub open spec fn wf(&self) -> bool {
        world_wf(self@)
    }

    /// A world without entities.
    pub fn new() -> (world: World)
        ensures
            world@ == Seq::<Components>::empty(),
            world.wf(),
    {
        World { entities: Vec::new() }
    }

    /// How many entities there are.
    pub fn len(&self) -> (count: usize)
        ensures
            count == self@.len(),
    {
        self.entities.len()
    }

    /// Tells whether every record in the world is well formed.
    pub fn is_well_formed(&self) -> (ok: bool)
        ensures
            ok == self.wf(),
    {
        let mut index: usize = 0;
        while index < self.entities.len()
            invariant
                index <= self.entities.len(),
                forall|entity: int| 0 <= entity < index ==> (#[trigger] self@[entity]).wf(),
            decreases self.entities.len() - index,
        {
            if !self.entities[index].is_well_formed() {
                return false;
            }
            index += 1;
        }
        true
    }

    /// Adds an entity that carries `components`, and gives its identifier.
    pub fn spawn(&mut self, components: Components) -> (entity: EntityId)
        ensures
            final(self)@ == old(self)@.push(components),
            entity == old(self)@.len(),
            lookup(final(self)@, entity) == components,
            old(self).wf() && components.wf() ==> final(self).wf(),
    {
        let entity: EntityId = self.entities.len() as u64;
        self.entities.push(components);
        entity
    }

    /// What `entity` carries: its record, or the empty record where no such
    /// entity exists.
    pub fn get(&self, entity: EntityId) -> (components: Components)
        ensures
            components == lookup(self@, entity),
            self.wf() ==> components.wf(),
    {
        if entity < self.entities.len() as u64 {
            self.entities[entity as usize]
        } else {
            Components::default()
        }
    }

    /// Replaces what `entity` carries by `components`. Where no such entity
    /// exists, nothing changes.
    pub fn set(&mut self, entity: EntityId, components: Components)
        ensures
            final(self)@ == store(old(self)@, entity, components),
            old(self).wf() && components.wf() ==> final(self).wf(),
    {
        if entity < self.entities.len() as u64 {
            self.entities[entity as usize] = components;
        }
    }
}

} // verus!
