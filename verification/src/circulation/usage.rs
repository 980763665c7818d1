//! Usage: the body burns what the bloodstream holds.

use crate::inhalation::BloodstreamContent;
use crate::world::{world_may_become, world_wf, Components, World};
use vstd::math::max;
use vstd::prelude::*;

verus! {

/// How much gas a breather's body burns per tick, as a fixed-point number.
#[derive(Clone, Copy, Debug, PartialEq, Eq, Structural)]
pub struct GasUsageRate(pub u64);

impl Default for GasUsageRate {
    /// A body that burns nothing.
    fn default() -> (rate: Self)
        ensures
            rate == GasUsageRate(0),
    {
        GasUsageRate(0)
    }
}

impl BloodstreamContent {
    /// The bloodstream after one tick of use at `rate`: emptier by the
    /// rate, down to nothing.
    pub open spec fn after_use(self, rate: GasUsageRate) -> BloodstreamContent {
        BloodstreamContent {
            amount_remaining: max(self.amount_remaining - rate.0, 0) as u64,
            ..self
        }
    }

    /// The bloodstream after its composition has been brought up to date:
    /// where nothing is left, no oxygen is left. The proportion of nitrogen
    /// is kept as it was.
    pub open spec fn after_exhaust_check(self) -> BloodstreamContent {
        if self.amount_remaining == 0 {
            BloodstreamContent { proportion_of_oxygen: 0, ..self }
        } else {
            self
        }
    }

    /// Burns one tick's worth of gas.
    pub fn consume(&mut self, rate: &GasUsageRate)
        ensures
            *final(self) == old(self).after_use(*rate),
            old(self).wf() ==> final(self).wf(),
    {
        if self.amount_remaining >= rate.0 {
            self.amount_remaining = self.amount_remaining - rate.0;
        } else {
            self.amount_remaining = 0;
        }
    }

    /// Clears the proportion of oxygen once the bloodstream is exhausted.
    pub fn update_proportions(&mut self)
        ensures
            *final(self) == old(self).after_exhaust_check(),
            old(self).wf() ==> final(self).wf(),
    {
        if self.amount_remaining == 0 {
            self.proportion_of_oxygen = 0;
        }
    }
}

impl Components {
    /// The record after one tick of use, where there is a bloodstream and
    /// a rate at which the body burns it.
    pub open spec fn after_use(self) -> Components {
        match (self.gas_usage_rate, self.bloodstream_content) {
            (Some(rate), Some(bloodstream_content)) => Components {
                bloodstream_content: Some(bloodstream_content.after_use(rate)),
                ..self
            },
            _ => self,
        }
    }

    /// The record after the composition of its bloodstream, where there is
    /// one, has been brought up to date.
    pub open spec fn after_exhaust_check(self) -> Components {
        match self.bloodstream_content {
            Some(bloodstream_content) => Components {
                bloodstream_content: Some(bloodstream_content.after_exhaust_check()),
                ..self
            },
            None => self,
        }
    }
}

/// The world after one tick of use by every body.
pub open spec fn usage_spec(world: Seq<Components>) -> Seq<Components> {
    world.map_values(|components: Components| components.after_use())
}

/// The world after every bloodstream's composition has been brought up to
/// date.
pub open spec fn update_proportions_on_exhaust_spec(world: Seq<Components>) -> Seq<Components> {
    world.map_values(|components: Components| components.after_exhaust_check())
}

/// The usage stage: every body burns one tick's worth of the gas in its
/// bloodstream. It must run after `intake_gas`, so that it does not starve
/// the transfer of the same tick.
pub fn usage(world: &mut World)
    ensures
        final(world)@ == usage_spec(old(world)@),
        old(world).wf() ==> final(world).wf(),
{
    let mut index: usize = 0;
    while index < world.len()
        invariant
            index <= world@.len(),
            world@.len() == old(world)@.len(),
            old(world).wf() ==> world.wf(),
            forall|entity: int|
                0 <= entity < index ==> world@[entity] == (#[trigger] old(
                    world,
                )@[entity]).after_use(),
            forall|entity: int|
                index <= entity < world@.len() ==> world@[entity] == #[trigger] old(
                    world,
                )@[entity],
        decreases world@.len() - index,
    {
        let mut components = world.get(index as u64);
        match (components.gas_usage_rate, components.bloodstream_content) {
            (Some(rate), Some(mut bloodstream_content)) => {
                bloodstream_content.consume(&rate);
                components.bloodstream_content = Some(bloodstream_content);
                world.set(index as u64, components);
            },
            _ => {},
        }
        index += 1;
    }
}

/// The follow-up of usage: every exhausted bloodstream forgets its oxygen.
/// It must run after `usage`.
pub fn update_proportions_on_exhaust(world: &mut World)
    ensures
        final(world)@ == update_proportions_on_exhaust_spec(old(world)@),
        old(world).wf() ==> final(world).wf(),
{
    let mut index: usize = 0;
    while index < world.len()
        invariant
            index <= world@.len(),
            world@.len() == old(world)@.len(),
            old(world).wf() ==> world.wf(),
            forall|entity: int|
                0 <= entity < index ==> world@[entity] == (#[trigger] old(
                    world,
                )@[entity]).after_exhaust_check(),
            forall|entity: int|
                index <= entity < world@.len() ==> world@[entity] == #[trigger] old(
                    world,
                )@[entity],
        decreases world@.len() - index,
    {
        let mut components = world.get(index as u64);
        match components.bloodstream_content {
            Some(mut bloodstream_content) => {
                bloodstream_content.update_proportions();
                components.bloodstream_content = Some(bloodstream_content);
                world.set(index as u64, components);
            },
            None => {},
        }
        index += 1;
    }
}

/// Usage touches nothing but the amounts that bloodstreams hold, and its
/// follow-up nothing but their proportion of oxygen.
pub proof fn lemma_usage_only_touches_bloodstreams(world: Seq<Components>)
    ensures
        world_may_become(world, usage_spec(world)),
        world_may_become(world, update_proportions_on_exhaust_spec(world)),
        forall|entity: int|
            0 <= entity < world.len() ==> (#[trigger] usage_spec(world)[entity]) == (Components {
                bloodstream_content: usage_spec(world)[entity].bloodstream_content,
                ..world[entity]
            }),
        forall|entity: int|
            0 <= entity < world.len() ==> (#[trigger] update_proportions_on_exhaust_spec(
                world,
            )[entity]) == (Components {
                bloodstream_content: update_proportions_on_exhaust_spec(
                    world,
                )[entity].bloodstream_content,
                ..world[entity]
            }),
{
}

/// Usage and its follow-up keep the world well formed.
pub proof fn lemma_usage_keeps_wf(world: Seq<Components>)
    requires
        world_wf(world),
    ensures
        world_wf(usage_spec(world)),
        world_wf(update_proportions_on_exhaust_spec(world)),
{
}

} // verus!
