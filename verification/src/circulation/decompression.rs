//! Decompression: the lungs buffer the gas that comes out of solution, and
//! what they cannot buffer does harm.

use crate::circulation::equalization::Outgassing;
use crate::health::DamageEvent;
use crate::world::{
    lemma_world_may_become_in_steps, lookup, push_some, store, world_may_become, world_wf,
    Components, World,
};
use crate::EntityId;
use vstd::math::{max, min};
use vstd::prelude::*;

verus! {

/// How much outgassing the lungs of a breather can take: the `load` they
/// carry now, the most they can carry, and how much of it they shed per
/// tick, all three in bar as fixed-point numbers.
#[derive(Clone, Copy, Debug, PartialEq, Eq, Structural)]
pub struct GasExchangeInLungs {
    pub max_load: u64,
    pub load: u64,
    pub recovery_rate: u64,
}

/// The harm that `amount` of outgassing does to lungs in state `lungs`:
/// what would push the load beyond its maximum, or nothing where it fits.
pub open spec fn outgassing_damage(
    entity: EntityId,
    lungs: GasExchangeInLungs,
    amount: u64,
) -> Option<DamageEvent> {
    if lungs.load + amount > lungs.max_load {
        Some(DamageEvent { target: entity, damage: (lungs.load + amount - lungs.max_load) as u128 })
    } else {
        None
    }
}

impl GasExchangeInLungs {
    /// The load is within what the lungs can carry.
    pub open spec fn wf(self) -> bool {
        self.load <= self.max_load
    }

    /// Tells whether the record is well formed.
    pub fn is_well_formed(&self) -> (ok: bool)
        ensures
            ok == self.wf(),
    {
        self.load <= self.max_load
    }

    /// The lungs after `amount` of outgassing: the load grows by it, up to
    /// the maximum.
    pub open spec fn after_outgassing(self, amount: u64) -> GasExchangeInLungs {
        GasExchangeInLungs { load: min(self.load + amount, self.max_load as int) as u64, ..self }
    }

    /// The lungs after a tick of rest: the load shrinks by the recovery
    /// rate, down to nothing.
    pub open spec fn after_recovery(self) -> GasExchangeInLungs {
        GasExchangeInLungs { load: max(self.load - self.recovery_rate, 0) as u64, ..self }
    }

    /// Loads the lungs of `entity` with `amount` of outgassing and reports
    /// the harm done by what they could not take.
    pub fn absorb(&mut self, entity: EntityId, amount: u64) -> (damage: Option<DamageEvent>)
        ensures
            *final(self) == old(self).after_outgassing(amount),
            damage == outgassing_damage(entity, *old(self), amount),
            final(self).wf(),
    {
        let loaded: u128 = self.load as u128 + amount as u128;
        if loaded > self.max_load as u128 {
            let overflow: u128 = loaded - self.max_load as u128;
            self.load = self.max_load;
            Some(DamageEvent { target: entity, damage: overflow })
        } else {
            self.load = loaded as u64;
            None
        }
    }

    /// Sheds one tick's worth of load.
    pub fn recover(&mut self)
        ensures
            *final(self) == old(self).after_recovery(),
            old(self).wf() ==> final(self).wf(),
    {
        if self.load >= self.recovery_rate {
            self.load = self.load - self.recovery_rate;
        } else {
            self.load = 0;
        }
    }
}

impl Default for GasExchangeInLungs {
    /// Lungs that can carry nothing and carry nothing.
    fn default() -> (lungs: Self)
        ensures
            lungs == (GasExchangeInLungs { max_load: 0, load: 0, recovery_rate: 0 }),
    {
        GasExchangeInLungs { max_load: 0, load: 0, recovery_rate: 0 }
    }
}

impl Components {
    /// The record after a tick of rest for the lungs, where there are any.
    pub open spec fn after_recovery(self) -> Components {
        match self.gas_exchange_in_lungs {
            Some(lungs) => Components {
                gas_exchange_in_lungs: Some(lungs.after_recovery()),
                ..self
            },
            None => self,
        }
    }
}

/// One outgassing as the lungs of its breather take it. A breather without
/// lungs is passed over.
pub open spec fn outgassing_load_for(world: Seq<Components>, outgassing: Outgassing) -> (
    Seq<Components>,
    Option<DamageEvent>,
) {
    let breather = lookup(world, outgassing.entity);
    match breather.gas_exchange_in_lungs {
        Some(lungs) => (
            store(
                world,
                outgassing.entity,
                Components {
                    gas_exchange_in_lungs: Some(lungs.after_outgassing(outgassing.amount)),
                    ..breather
                },
            ),
            outgassing_damage(outgassing.entity, lungs, outgassing.amount),
        ),
        None => (world, None),
    }
}

/// The lungs after the outgassing of one tick, event by event in order,
/// and the harm done by what they could not take.
pub open spec fn outgassing_load_spec(world: Seq<Components>, outgassings: Seq<Outgassing>) -> (
    Seq<Components>,
    Seq<DamageEvent>,
)
    decreases outgassings.len(),
{
    if outgassings.len() == 0 {
        (world, Seq::empty())
    } else {
        let (before, damage_events) = outgassing_load_spec(world, outgassings.drop_last());
        let (after, damage) = outgassing_load_for(before, outgassings.last());
        (after, push_some(damage_events, damage))
    }
}

/// The world after a tick of rest for all lungs.
pub open spec fn outgassing_deload_spec(world: Seq<Components>) -> Seq<Components> {
    world.map_values(|components: Components| components.after_recovery())
}

/// The loading half of decompression: loads the lungs of each breather
/// that `bloodstream_outgassings` names, and appends the harm done to
/// `damage_events`. It must run after `equalize_pressure`.
pub fn outgassing_load(
    world: &mut World,
    bloodstream_outgassings: &Vec<Outgassing>,
    damage_events: &mut Vec<DamageEvent>,
)
    ensures
        final(world)@ == outgassing_load_spec(old(world)@, bloodstream_outgassings@).0,
        final(damage_events)@ == old(damage_events)@ + outgassing_load_spec(
            old(world)@,
            bloodstream_outgassings@,
        ).1,
        old(world).wf() ==> final(world).wf(),
{
    let ghost world_before = world@;
    let ghost damage_before = damage_events@;
    let mut index: usize = 0;
    while index < bloodstream_outgassings.len()
        invariant
            index <= bloodstream_outgassings.len(),
            world_before == old(world)@,
            old(world).wf() ==> world.wf(),
            world@ == outgassing_load_spec(
                world_before,
                bloodstream_outgassings@.take(index as int),
            ).0,
            damage_events@ == damage_before + outgassing_load_spec(
                world_before,
                bloodstream_outgassings@.take(index as int),
            ).1,
        decreases bloodstream_outgassings.len() - index,
    {
        let outgassing = bloodstream_outgassings[index];
        proof {
            assert(bloodstream_outgassings@.take(index + 1).drop_last()
                == bloodstream_outgassings@.take(index as int));
        }
        let mut breather = world.get(outgassing.entity);
        match breather.gas_exchange_in_lungs {
            Some(mut lungs) => {
                let damage = lungs.absorb(outgassing.entity, outgassing.amount);
                breather.gas_exchange_in_lungs = Some(lungs);
                world.set(outgassing.entity, breather);
                match damage {
                    Some(damage) => {
                        damage_events.push(damage);
                    },
                    None => {},
                }
            },
            None => {},
        }
        index += 1;
    }
    proof {
        assert(bloodstream_outgassings@.take(index as int) == bloodstream_outgassings@);
    }
}

/// The recovering half of decompression: all lungs shed one tick's worth
/// of load. It must run after `outgassing_load`, so that the harm of this
/// tick's outgassing is not discounted.
pub fn outgassing_deload(world: &mut World)
    ensures
        final(world)@ == outgassing_deload_spec(old(world)@),
        old(world).wf() ==> final(world).wf(),
{
    let mut index: usize = 0;
    while index < world.len()
        invariant
            index <= world@.len(),
            world@.len() == old(world)@.len(),
            old(world).wf() ==> world.wf(),
            forall|entity: int|
                0 <= entity < index ==> world@[entity] == (#[trigger] old(
                    world,
                )@[entity]).after_recovery(),
            forall|entity: int|
                index <= entity < world@.len() ==> world@[entity] == #[trigger] old(
                    world,
                )@[entity],
        decreases world@.len() - index,
    {
        let mut components = world.get(index as u64);
        match components.gas_exchange_in_lungs {
            Some(mut lungs) => {
                lungs.recover();
                components.gas_exchange_in_lungs = Some(lungs);
                world.set(index as u64, components);
            },
            None => {},
        }
        index += 1;
    }
}

/// After outgassing the load never exceeds its maximum, and the harm
/// reported is exactly the overflow: what the load and the outgassing
/// together come to beyond the maximum. Where they fit, there is no harm
/// and the load has grown by the outgassing.
pub proof fn lemma_outgassing_harm_is_the_overflow(
    entity: EntityId,
    lungs: GasExchangeInLungs,
    amount: u64,
)
    ensures
        lungs.after_outgassing(amount).load <= lungs.max_load,
        lungs.after_outgassing(amount).wf(),
        outgassing_damage(entity, lungs, amount) is Some <==> lungs.load + amount > lungs.max_load,
        outgassing_damage(entity, lungs, amount) matches Some(event) ==> event.target == entity
            && event.damage == lungs.load + amount - lungs.max_load && lungs.after_outgassing(
            amount,
        ).load == lungs.max_load,
        outgassing_damage(entity, lungs, amount) is None ==> lungs.after_outgassing(amount).load
            == lungs.load + amount,
{
}

/// Recovery never raises the load, so it keeps the load within its
/// maximum, and it never takes the load below nothing.
pub proof fn lemma_recovery_lowers_load(lungs: GasExchangeInLungs)
    ensures
        0 <= lungs.after_recovery().load <= lungs.load,
        lungs.load >= lungs.recovery_rate ==> lungs.after_recovery().load == lungs.load
            - lungs.recovery_rate,
        lungs.load < lungs.recovery_rate ==> lungs.after_recovery().load == 0,
        lungs.wf() ==> lungs.after_recovery().wf(),
{
}

/// Decompression touches nothing but the loads that lungs carry.
pub proof fn lemma_decompression_only_touches_loads(
    world: Seq<Components>,
    outgassings: Seq<Outgassing>,
)
    ensures
        world_may_become(world, outgassing_load_spec(world, outgassings).0),
        world_may_become(world, outgassing_deload_spec(world)),
        forall|entity: int|
            0 <= entity < world.len() ==> (#[trigger] outgassing_load_spec(
                world,
                outgassings,
            ).0[entity]) == (Components {
                gas_exchange_in_lungs: outgassing_load_spec(
                    world,
                    outgassings,
                ).0[entity].gas_exchange_in_lungs,
                ..world[entity]
            }),
        forall|entity: int|
            0 <= entity < world.len() ==> (#[trigger] outgassing_deload_spec(world)[entity])
                == (Components {
                gas_exchange_in_lungs: outgassing_deload_spec(world)[entity].gas_exchange_in_lungs,
                ..world[entity]
            }),
    decreases outgassings.len(),
{
    if outgassings.len() > 0 {
        lemma_decompression_only_touches_loads(world, outgassings.drop_last());
        let before = outgassing_load_spec(world, outgassings.drop_last()).0;
        lemma_world_may_become_in_steps(
            world,
            before,
            outgassing_load_for(before, outgassings.last()).0,
        );
    } else {
        lemma_world_may_become_in_steps(world, world, world);
    }
}

/// The loading half of decompression keeps the world well formed: no load
/// exceeds its maximum.
pub proof fn lemma_outgassing_load_keeps_wf(world: Seq<Components>, outgassings: Seq<Outgassing>)
    requires
        world_wf(world),
    ensures
        world_wf(outgassing_load_spec(world, outgassings).0),
        outgassing_load_spec(world, outgassings).0.len() == world.len(),
    decreases outgassings.len(),
{
    if outgassings.len() > 0 {
        lemma_outgassing_load_keeps_wf(world, outgassings.drop_last());
    }
}

/// The recovering half of decompression keeps the world well formed.
pub proof fn lemma_outgassing_deload_keeps_wf(world: Seq<Components>)
    requires
        world_wf(world),
    ensures
        world_wf(outgassing_deload_spec(world)),
{
}

} // verus!
