//! Inhalation: drawing a breath from the equipped cylinder.

use crate::circulation::{gases_wf, CirculateGas};
use crate::helpers::UNIT;
use crate::world::{
    lemma_world_may_become_in_steps, lookup, push_some, store, world_may_become, world_wf,
    Components, World,
};
use crate::EntityId;
use vstd::math::min;
use vstd::prelude::*;

verus! {

/// The share of oxygen in air.
pub const AIR_O2_RATIO: u64 = 210_000;

/// The share of nitrogen in air.
pub const AIR_N2_RATIO: u64 = 780_000;

/// A gas supply that a breather can equip: how much gas it can hold, how
/// much it still holds, and which share of that gas is oxygen and which is
/// nitrogen. All four are fixed-point numbers; what the two proportions
/// leave of the whole is gas that respiration does not follow.
#[derive(Clone, Copy, Debug, PartialEq, Eq, Structural)]
pub struct DivingCylinder {
    pub capacity: u64,
    pub amount_remaining: u64,
    pub proportion_of_oxygen: u64,
    pub proportion_of_nitrogen: u64,
}

/// The link from a breather to the cylinder it breathes from. It owns
/// nothing: the cylinder may be gone.
#[derive(Clone, Copy, Debug, PartialEq, Eq, Structural)]
pub struct EquippedTank(pub EntityId);

/// The gas held in a breather's bloodstream: how much it can hold, how much
/// it holds, and which share of it is oxygen and which is nitrogen. All
/// four are fixed-point numbers.
#[derive(Clone, Copy, Debug, PartialEq, Eq, Structural)]
pub struct BloodstreamContent {
    pub capacity: u64,
    pub amount_remaining: u64,
    pub proportion_of_oxygen: u64,
    pub proportion_of_nitrogen: u64,
}

/// The wish of `entity` to take a breath.
#[derive(Clone, Copy, Debug, PartialEq, Eq, Structural)]
pub struct BreathTaken {
    pub entity: EntityId,
}

/// How much gas one breath moves: what the bloodstream has room for, as far
/// as the cylinder can supply it.
pub open spec fn amount_breathed(
    bloodstream_content: BloodstreamContent,
    cylinder: DivingCylinder,
) -> int {
    min(
        bloodstream_content.capacity - bloodstream_content.amount_remaining,
        cylinder.amount_remaining as int,
    )
}

/// What a breath announces: the gas that left the cylinder, or nothing
/// where no gas moved.
pub open spec fn breath_event(
    entity: EntityId,
    bloodstream_content: BloodstreamContent,
    cylinder: DivingCylinder,
) -> Option<CirculateGas> {
    if amount_breathed(bloodstream_content, cylinder) > 0 {
        Some(
            CirculateGas {
                entity,
                amount: amount_breathed(bloodstream_content, cylinder) as u64,
                proportion_of_oxygen: cylinder.proportion_of_oxygen,
                proportion_of_nitrogen: cylinder.proportion_of_nitrogen,
            },
        )
    } else {
        None
    }
}

impl BloodstreamContent {
    /// The bloodstream holds no more than its capacity, and both
    /// proportions are proportions.
    pub open spec fn wf(self) -> bool {
        &&& self.amount_remaining <= self.capacity
        &&& self.proportion_of_oxygen <= UNIT
        &&& self.proportion_of_nitrogen <= UNIT
    }

    /// Tells whether the record is well formed.
    pub fn is_well_formed(&self) -> (ok: bool)
        ensures
            ok == self.wf(),
    {
        self.amount_remaining <= self.capacity && self.proportion_of_oxygen <= UNIT
            && self.proportion_of_nitrogen <= UNIT
    }
}

impl Default for BloodstreamContent {
    /// An empty bloodstream of no capacity, mixed like air.
    fn default() -> (content: Self)
        ensures
            content == (BloodstreamContent {
                capacity: 0,
                amount_remaining: 0,
                proportion_of_oxygen: AIR_O2_RATIO,
                proportion_of_nitrogen: AIR_N2_RATIO,
            }),
    {
        BloodstreamContent {
            capacity: 0,
            amount_remaining: 0,
            proportion_of_oxygen: AIR_O2_RATIO,
            proportion_of_nitrogen: AIR_N2_RATIO,
        }
    }
}

impl DivingCylinder {
    /// The cylinder holds no more than its capacity, and both proportions
    /// are proportions.
    pub open spec fn wf(self) -> bool {
        &&& self.amount_remaining <= self.capacity
        &&& self.proportion_of_oxygen <= UNIT
        &&& self.proportion_of_nitrogen <= UNIT
    }

    /// Tells whether the record is well formed.
    pub fn is_well_formed(&self) -> (ok: bool)
        ensures
            ok == self.wf(),
    {
        self.amount_remaining <= self.capacity && self.proportion_of_oxygen <= UNIT
            && self.proportion_of_nitrogen <= UNIT
    }

    /// The cylinder after one breath into `bloodstream_content`: lighter by
    /// the amount breathed, otherwise the same.
    pub open spec fn after_breath(self, bloodstream_content: BloodstreamContent) -> DivingCylinder {
        DivingCylinder {
            amount_remaining: (self.amount_remaining - amount_breathed(
                bloodstream_content,
                self,
            )) as u64,
            ..self
        }
    }

    /// Draws one breath for `entity`, whose bloodstream is
    /// `bloodstream_content`. The bloodstream itself is filled later, by
    /// the intake stage.
    pub fn supply_breath(
        &mut self,
        entity: EntityId,
        bloodstream_content: &BloodstreamContent,
    ) -> (gas: Option<CirculateGas>)
        requires
            bloodstream_content.wf(),
        ensures
            *final(self) == old(self).after_breath(*bloodstream_content),
            gas == breath_event(entity, *bloodstream_content, *old(self)),
            old(self).wf() ==> final(self).wf(),
            old(self).wf() ==> (gas matches Some(g) ==> g.wf()),
            old(self).amount_remaining == 0 || bloodstream_content.amount_remaining
                == bloodstream_content.capacity ==> gas is None && *final(self) == *old(self),
    {
        let room: u64 = bloodstream_content.capacity - bloodstream_content.amount_remaining;
        let amount: u64 = if room <= self.amount_remaining {
            room
        } else {
            self.amount_remaining
        };
        self.amount_remaining = self.amount_remaining - amount;
        if amount > 0 {
            Some(
                CirculateGas {
                    entity,
                    amount,
                    proportion_of_oxygen: self.proportion_of_oxygen,
                    proportion_of_nitrogen: self.proportion_of_nitrogen,
                },
            )
        } else {
            None
        }
    }
}

impl Default for DivingCylinder {
    /// An empty cylinder of no capacity, filled with air.
    fn default() -> (cylinder: Self)
        ensures
            cylinder == (DivingCylinder {
                capacity: 0,
                amount_remaining: 0,
                proportion_of_oxygen: AIR_O2_RATIO,
                proportion_of_nitrogen: AIR_N2_RATIO,
            }),
    {
        DivingCylinder {
            capacity: 0,
            amount_remaining: 0,
            proportion_of_oxygen: AIR_O2_RATIO,
            proportion_of_nitrogen: AIR_N2_RATIO,
        }
    }
}

/// One breath in `world`: the cylinder that the breather has equipped gives
/// what the breather's bloodstream has room for. A breather without a
/// bloodstream, without an equipped cylinder, or whose cylinder is gone,
/// takes no breath.
pub open spec fn inhalation_for(world: Seq<Components>, breath: BreathTaken) -> (
    Seq<Components>,
    Option<CirculateGas>,
) {
    let breather = lookup(world, breath.entity);
    match (breather.bloodstream_content, breather.equipped_tank) {
        (Some(bloodstream_content), Some(equipped_tank)) => {
            let holder = lookup(world, equipped_tank.0);
            match holder.diving_cylinder {
                Some(cylinder) => (
                    store(
                        world,
                        equipped_tank.0,
                        Components {
                            diving_cylinder: Some(cylinder.after_breath(bloodstream_content)),
                            ..holder
                        },
                    ),
                    breath_event(breath.entity, bloodstream_content, cylinder),
                ),
                None => (world, None),
            }
        },
        _ => (world, None),
    }
}

/// The breaths of one tick, taken in the order in which they were asked
/// for: the world after them, and the gas that they set moving.
pub open spec fn inhalation_spec(world: Seq<Components>, breaths: Seq<BreathTaken>) -> (
    Seq<Components>,
    Seq<CirculateGas>,
)
    decreases breaths.len(),
{
    if breaths.len() == 0 {
        (world, Seq::empty())
    } else {
        let (before, gases) = inhalation_spec(world, breaths.drop_last());
        let (after, gas) = inhalation_for(before, breaths.last());
        (after, push_some(gases, gas))
    }
}

/// The inhalation stage: takes every breath in `breaths`, in order, and
/// appends the gas set moving to `circulate_gas`.
pub fn inhalation(
    world: &mut World,
    breaths: &Vec<BreathTaken>,
    circulate_gas: &mut Vec<CirculateGas>,
)
    requires
        old(world).wf(),
    ensures
        final(world)@ == inhalation_spec(old(world)@, breaths@).0,
        final(circulate_gas)@ == old(circulate_gas)@ + inhalation_spec(old(world)@, breaths@).1,
        final(world).wf(),
        gases_wf(inhalation_spec(old(world)@, breaths@).1),
{
    let ghost world_before = world@;
    let ghost gases_before = circulate_gas@;
    let mut index: usize = 0;
    while index < breaths.len()
        invariant
            index <= breaths.len(),
            world.wf(),
            world@ == inhalation_spec(world_before, breaths@.take(index as int)).0,
            circulate_gas@ == gases_before + inhalation_spec(
                world_before,
                breaths@.take(index as int),
            ).1,
            gases_wf(inhalation_spec(world_before, breaths@.take(index as int)).1),
        decreases breaths.len() - index,
    {
        let breath = breaths[index];
        proof {
            assert(breaths@.take(index + 1).drop_last() == breaths@.take(index as int));
        }
        let breather = world.get(breath.entity);
        match (breather.bloodstream_content, breather.equipped_tank) {
            (Some(bloodstream_content), Some(equipped_tank)) => {
                let mut holder = world.get(equipped_tank.0);
                match holder.diving_cylinder {
                    Some(mut cylinder) => {
                        let gas = cylinder.supply_breath(breath.entity, &bloodstream_content);
                        holder.diving_cylinder = Some(cylinder);
                        world.set(equipped_tank.0, holder);
                        match gas {
                            Some(gas) => {
                                circulate_gas.push(gas);
                            },
                            None => {},
                        }
                    },
                    None => {},
                }
            },
            _ => {},
        }
        index += 1;
    }
    proof {
        assert(breaths@.take(index as int) == breaths@);
    }
}

/// A breath moves no more than the bloodstream has room for, no more than
/// the cylinder holds, all of one of the two, and never a negative amount.
pub proof fn lemma_amount_breathed_is_the_smaller_supply(
    bloodstream_content: BloodstreamContent,
    cylinder: DivingCylinder,
)
    requires
        bloodstream_content.wf(),
    ensures
        0 <= amount_breathed(bloodstream_content, cylinder),
        amount_breathed(bloodstream_content, cylinder) <= bloodstream_content.capacity
            - bloodstream_content.amount_remaining,
        amount_breathed(bloodstream_content, cylinder) <= cylinder.amount_remaining,
        amount_breathed(bloodstream_content, cylinder) == bloodstream_content.capacity
            - bloodstream_content.amount_remaining || amount_breathed(
            bloodstream_content,
            cylinder,
        ) == cylinder.amount_remaining,
{
}

/// A breath against an empty cylinder, or into a full bloodstream, changes
/// nothing and announces nothing, however often it is taken.
pub proof fn lemma_breath_without_supply_or_room_is_idle(
    entity: EntityId,
    bloodstream_content: BloodstreamContent,
    cylinder: DivingCylinder,
)
    requires
        bloodstream_content.wf(),
        cylinder.amount_remaining == 0 || bloodstream_content.amount_remaining
            == bloodstream_content.capacity,
    ensures
        cylinder.after_breath(bloodstream_content) == cylinder,
        breath_event(entity, bloodstream_content, cylinder) is None,
{
}

/// Inhalation keeps the world well formed, and what it sets moving is well
/// formed gas.
pub proof fn lemma_inhalation_keeps_wf(world: Seq<Components>, breaths: Seq<BreathTaken>)
    requires
        world_wf(world),
    ensures
        world_wf(inhalation_spec(world, breaths).0),
        gases_wf(inhalation_spec(world, breaths).1),
        inhalation_spec(world, breaths).0.len() == world.len(),
    decreases breaths.len(),
{
    if breaths.len() > 0 {
        lemma_inhalation_keeps_wf(world, breaths.drop_last());
    }
}

/// Inhalation touches nothing but the amounts that cylinders hold, and
/// those it only lowers.
pub proof fn lemma_inhalation_only_draws_from_cylinders(
    world: Seq<Components>,
    breaths: Seq<BreathTaken>,
)
    requires
        world_wf(world),
    ensures
        world_may_become(world, inhalation_spec(world, breaths).0),
        forall|entity: int|
            0 <= entity < world.len() ==> (#[trigger] inhalation_spec(
                world,
                breaths,
            ).0[entity]).bloodstream_content == world[entity].bloodstream_content,
    decreases breaths.len(),
{
    if breaths.len() > 0 {
        lemma_inhalation_only_draws_from_cylinders(world, breaths.drop_last());
        lemma_inhalation_keeps_wf(world, breaths.drop_last());
        let before = inhalation_spec(world, breaths.drop_last()).0;
        let after = inhalation_for(before, breaths.last()).0;
        lemma_world_may_become_in_steps(world, before, after);
    } else {
        lemma_world_may_become_in_steps(world, world, world);
    }
}

/// A breath moves what it announces: the cylinder is lighter by exactly
/// the amount of the gas set moving, and that gas, once taken in, fits the
/// bloodstream whole.
pub proof fn lemma_breath_moves_what_it_announces(
    entity: EntityId,
    bloodstream_content: BloodstreamContent,
    cylinder: DivingCylinder,
)
    requires
        bloodstream_content.wf(),
    ensures
        match breath_event(entity, bloodstream_content, cylinder) {
            Some(gas) => {
                &&& gas.amount > 0
                &&& cylinder.after_breath(bloodstream_content).amount_remaining + gas.amount
                    == cylinder.amount_remaining
                &&& bloodstream_content.after_intake(gas.amount).amount_remaining
                    == bloodstream_content.amount_remaining + gas.amount
                &&& gas.proportion_of_oxygen == cylinder.proportion_of_oxygen
                &&& gas.proportion_of_nitrogen == cylinder.proportion_of_nitrogen
            },
            None => cylinder.after_breath(bloodstream_content) == cylinder,
        },
{
}

/// In a world where the breather of each of `breaths` has a full
/// bloodstream, or has equipped an empty cylinder, inhalation changes
/// nothing and sets no gas moving, however many breaths are taken.
pub proof fn lemma_inhalation_without_supply_or_room_is_idle(
    world: Seq<Components>,
    breaths: Seq<BreathTaken>,
)
    requires
        world_wf(world),
        forall|index: int|
            0 <= index < breaths.len() ==> without_supply_or_room(
                world,
                (#[trigger] breaths[index]).entity,
            ),
    ensures
        inhalation_spec(world, breaths) == (world, Seq::<CirculateGas>::empty()),
    decreases breaths.len(),
{
    if breaths.len() > 0 {
        lemma_inhalation_without_supply_or_room_is_idle(world, breaths.drop_last());
    }
}

/// The breather `entity` can take a breath, but the breath cannot move gas:
/// its bloodstream is full, or the cylinder that it has equipped is empty.
pub open spec fn without_supply_or_room(world: Seq<Components>, entity: EntityId) -> bool {
    let breather = lookup(world, entity);
    &&& breather.bloodstream_content matches Some(bloodstream_content)
    &&& breather.equipped_tank matches Some(equipped_tank)
    &&& lookup(world, equipped_tank.0).diving_cylinder matches Some(cylinder)
    &&& (bloodstream_content.amount_remaining == bloodstream_content.capacity
        || cylinder.amount_remaining == 0)
}

} // verus!
