//! Intake: the gas that was breathed arrives in the bloodstream.

use crate::circulation::CirculateGas;
use crate::inhalation::BloodstreamContent;
use crate::world::{
    lemma_world_may_become_in_steps, lookup, store, world_may_become, world_wf, Components, World,
};
use vstd::math::min;
use vstd::prelude::*;

verus! {

impl BloodstreamContent {
    /// The bloodstream after `amount` of gas has arrived: fuller by that
    /// amount, but never beyond its capacity.
    pub open spec fn after_intake(self, amount: u64) -> BloodstreamContent {
        BloodstreamContent {
            amount_remaining: min(self.capacity as int, self.amount_remaining + amount) as u64,
            ..self
        }
    }

    /// Takes in `amount` of gas, as far as there is room for it.
    pub fn intake(&mut self, amount: u64)
        ensures
            *final(self) == old(self).after_intake(amount),
            final(self).amount_remaining <= final(self).capacity,
            old(self).wf() ==> final(self).wf(),
    {
        if self.amount_remaining >= self.capacity || amount >= self.capacity
            - self.amount_remaining {
            self.amount_remaining = self.capacity;
        } else {
            self.amount_remaining = self.amount_remaining + amount;
        }
    }
}

/// The arrival of `gas` as the amount in its breather's bloodstream sees
/// it. A breather without a bloodstream is passed over.
pub open spec fn intake_gas_for(world: Seq<Components>, gas: CirculateGas) -> Seq<Components> {
    let breather = lookup(world, gas.entity);
    match breather.bloodstream_content {
        Some(bloodstream_content) => store(
            world,
            gas.entity,
            Components {
                bloodstream_content: Some(bloodstream_content.after_intake(gas.amount)),
                ..breather
            },
        ),
        None => world,
    }
}

/// The bloodstreams after the gas of one tick has arrived, event by event
/// in order.
pub open spec fn intake_gas_spec(world: Seq<Components>, gases: Seq<CirculateGas>) -> Seq<
    Components,
>
    decreases gases.len(),
{
    if gases.len() == 0 {
        world
    } else {
        intake_gas_for(intake_gas_spec(world, gases.drop_last()), gases.last())
    }
}

/// The intake stage: fills the bloodstream of each breather that
/// `gases_to_circulate` names with the gas that the event carries. It must
/// run after both halves of equalization.
pub fn intake_gas(world: &mut World, gases_to_circulate: &Vec<CirculateGas>)
    ensures
        final(world)@ == intake_gas_spec(old(world)@, gases_to_circulate@),
        old(world).wf() ==> final(world).wf(),
{
    let ghost world_before = world@;
    let mut index: usize = 0;
    while index < gases_to_circulate.len()
        invariant
            index <= gases_to_circulate.len(),
            world_before == old(world)@,
            old(world).wf() ==> world.wf(),
            world@ == intake_gas_spec(world_before, gases_to_circulate@.take(index as int)),
        decreases gases_to_circulate.len() - index,
    {
        let gas = gases_to_circulate[index];
        proof {
            assert(gases_to_circulate@.take(index + 1).drop_last() == gases_to_circulate@.take(
                index as int,
            ));
        }
        let mut breather = world.get(gas.entity);
        match breather.bloodstream_content {
            Some(mut bloodstream_content) => {
                bloodstream_content.intake(gas.amount);
                breather.bloodstream_content = Some(bloodstream_content);
                world.set(gas.entity, breather);
            },
            None => {},
        }
        index += 1;
    }
    proof {
        assert(gases_to_circulate@.take(index as int) == gases_to_circulate@);
    }
}

/// Intake touches nothing but the amounts that bloodstreams hold.
pub proof fn lemma_intake_only_fills_bloodstreams(world: Seq<Components>, gases: Seq<CirculateGas>)
    ensures
        world_may_become(world, intake_gas_spec(world, gases)),
        forall|entity: int|
            0 <= entity < world.len() ==> (#[trigger] intake_gas_spec(
                world,
                gases,
            )[entity]).diving_cylinder == world[entity].diving_cylinder && intake_gas_spec(
                world,
                gases,
            )[entity].bloodstream_pressure == world[entity].bloodstream_pressure
                && intake_gas_spec(world, gases)[entity].gas_exchange_in_lungs
                == world[entity].gas_exchange_in_lungs,
    decreases gases.len(),
{
    if gases.len() > 0 {
        lemma_intake_only_fills_bloodstreams(world, gases.drop_last());
        let before = intake_gas_spec(world, gases.drop_last());
        lemma_world_may_become_in_steps(world, before, intake_gas_for(before, gases.last()));
    } else {
        lemma_world_may_become_in_steps(world, world, world);
    }
}

/// Intake keeps the world well formed: no bloodstream is filled beyond its
/// capacity.
pub proof fn lemma_intake_gas_keeps_wf(world: Seq<Components>, gases: Seq<CirculateGas>)
    requires
        world_wf(world),
    ensures
        world_wf(intake_gas_spec(world, gases)),
        intake_gas_spec(world, gases).len() == world.len(),
    decreases gases.len(),
{
    if gases.len() > 0 {
        lemma_intake_gas_keeps_wf(world, gases.drop_last());
    }
}

} // verus!
