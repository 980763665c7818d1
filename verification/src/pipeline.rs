//! The tick: every stage once, in a fixed order.

use crate::circulation::decompression::{
    lemma_decompression_only_touches_loads, lemma_outgassing_deload_keeps_wf,
    lemma_outgassing_load_keeps_wf, outgassing_deload, outgassing_deload_spec, outgassing_load,
    outgassing_load_spec,
};
use crate::circulation::equalization::{
    equalize_gases, equalize_gases_spec, equalize_pressure, equalize_pressure_spec,
    lemma_equalization_only_touches_pressure_and_proportions, lemma_equalize_gases_keeps_wf,
    lemma_equalize_pressure_keeps_wf, Outgassing,
};
use crate::circulation::intake::{
    intake_gas, intake_gas_spec, lemma_intake_gas_keeps_wf, lemma_intake_only_fills_bloodstreams,
};
use crate::circulation::nitrogen::{nitrogen_narcosis, nitrogen_narcosis_spec};
use crate::circulation::oxygen::{oxygen_damage, oxygen_damage_spec};
use crate::circulation::usage::{
    lemma_usage_keeps_wf, lemma_usage_only_touches_bloodstreams, update_proportions_on_exhaust,
    update_proportions_on_exhaust_spec, usage, usage_spec,
};
use crate::circulation::CirculateGas;
use crate::health::DamageEvent;
use crate::inhalation::{
    inhalation, inhalation_spec, lemma_inhalation_keeps_wf,
    lemma_inhalation_only_draws_from_cylinders, BreathTaken,
};
use crate::world::{
    lemma_world_may_become_in_steps, world_may_become, world_wf, Components, World,
};
use vstd::prelude::*;

verus! {

/// One tick: the world after it, and the harm that it did. Inhalation comes
/// first; both halves of equalization come before intake, because they
/// weigh by what the bloodstream held before the gas arrived; decompression
/// loads the lungs before it lets them recover; usage comes after intake
/// and before its follow-up. Each stage works through all of its events
/// before the next stage starts. The harm is that of decompression first,
/// then that of oxygen and that of nitrogen, both judged on the world that
/// the tick leaves behind.
pub open spec fn tick_spec(world: Seq<Components>, breaths: Seq<BreathTaken>) -> (
    Seq<Components>,
    Seq<DamageEvent>,
) {
    let (inhaled, gases) = inhalation_spec(world, breaths);
    let (equalized, outgassings) = equalize_pressure_spec(inhaled, gases);
    let blended = equalize_gases_spec(equalized, gases);
    let filled = intake_gas_spec(blended, gases);
    let (loaded, decompression_damage) = outgassing_load_spec(filled, outgassings);
    let rested = outgassing_deload_spec(loaded);
    let used = usage_spec(rested);
    let after = update_proportions_on_exhaust_spec(used);
    (after, decompression_damage + oxygen_damage_spec(after) + nitrogen_narcosis_spec(after))
}

/// The world after one tick for each batch of breaths in `batches`.
pub open spec fn ticks_spec(world: Seq<Components>, batches: Seq<Seq<BreathTaken>>) -> Seq<
    Components,
>
    decreases batches.len(),
{
    if batches.len() == 0 {
        world
    } else {
        tick_spec(ticks_spec(world, batches.drop_last()), batches.last()).0
    }
}

/// Runs one tick of the simulation on the breaths that were asked for since
/// the last one, and appends the harm done to `damage_events`.
pub fn tick(world: &mut World, breaths: &Vec<BreathTaken>, damage_events: &mut Vec<DamageEvent>)
    requires
        old(world).wf(),
    ensures
        final(world)@ == tick_spec(old(world)@, breaths@).0,
        final(damage_events)@ == old(damage_events)@ + tick_spec(old(world)@, breaths@).1,
        final(world).wf(),
        final(world)@.len() == old(world)@.len(),
{
    let mut gases: Vec<CirculateGas> = Vec::new();
    inhalation(world, breaths, &mut gases);
    let mut outgassings: Vec<Outgassing> = Vec::new();
    equalize_pressure(world, &gases, &mut outgassings);
    equalize_gases(world, &gases);
    intake_gas(world, &gases);
    outgassing_load(world, &outgassings, damage_events);
    outgassing_deload(world);
    usage(world);
    update_proportions_on_exhaust(world);
    oxygen_damage(world, damage_events);
    nitrogen_narcosis(world, damage_events);
    proof {
        lemma_tick_keeps_wf(old(world)@, breaths@);
    }
}

/// A tick keeps the world well formed: every cylinder and every
/// bloodstream stays within its capacity, every proportion stays a
/// proportion, and every load stays within its maximum. It neither adds
/// nor removes an entity.
pub proof fn lemma_tick_keeps_wf(world: Seq<Components>, breaths: Seq<BreathTaken>)
    requires
        world_wf(world),
    ensures
        world_wf(tick_spec(world, breaths).0),
        tick_spec(world, breaths).0.len() == world.len(),
{
    lemma_inhalation_keeps_wf(world, breaths);
    let (inhaled, gases) = inhalation_spec(world, breaths);
    lemma_equalize_pressure_keeps_wf(inhaled, gases);
    let (equalized, outgassings) = equalize_pressure_spec(inhaled, gases);
    lemma_equalize_gases_keeps_wf(equalized, gases);
    let blended = equalize_gases_spec(equalized, gases);
    lemma_intake_gas_keeps_wf(blended, gases);
    let filled = intake_gas_spec(blended, gases);
    lemma_outgassing_load_keeps_wf(filled, outgassings);
    let loaded = outgassing_load_spec(filled, outgassings).0;
    lemma_outgassing_deload_keeps_wf(loaded);
    let rested = outgassing_deload_spec(loaded);
    lemma_usage_keeps_wf(rested);
    lemma_usage_keeps_wf(usage_spec(rested));
}

/// A tick changes only what respiration may change. What is given from
/// outside (the depth, the usage rate, both hazards, the link to the
/// cylinder) it leaves alone; it neither adds nor removes a component; and
/// a cylinder only ever loses gas, by inhalation alone: what a cylinder
/// holds after the tick is what it held after the tick's inhalation.
pub proof fn lemma_tick_changes_only_what_it_may(world: Seq<Components>, breaths: Seq<BreathTaken>)
    requires
        world_wf(world),
    ensures
        world_may_become(world, tick_spec(world, breaths).0),
        forall|entity: int|
            0 <= entity < world.len() ==> (#[trigger] tick_spec(
                world,
                breaths,
            ).0[entity]).diving_cylinder == inhalation_spec(
                world,
                breaths,
            ).0[entity].diving_cylinder,
{
    lemma_inhalation_only_draws_from_cylinders(world, breaths);
    lemma_inhalation_keeps_wf(world, breaths);
    let (inhaled, gases) = inhalation_spec(world, breaths);
    lemma_equalization_only_touches_pressure_and_proportions(inhaled, gases);
    let (equalized, outgassings) = equalize_pressure_spec(inhaled, gases);
    lemma_world_may_become_in_steps(world, inhaled, equalized);
    lemma_equalization_only_touches_pressure_and_proportions(equalized, gases);
    let blended = equalize_gases_spec(equalized, gases);
    lemma_world_may_become_in_steps(world, equalized, blended);
    lemma_intake_only_fills_bloodstreams(blended, gases);
    let filled = intake_gas_spec(blended, gases);
    lemma_world_may_become_in_steps(world, blended, filled);
    lemma_decompression_only_touches_loads(filled, outgassings);
    let loaded = outgassing_load_spec(filled, outgassings).0;
    lemma_world_may_become_in_steps(world, filled, loaded);
    lemma_decompression_only_touches_loads(loaded, outgassings);
    let rested = outgassing_deload_spec(loaded);
    lemma_world_may_become_in_steps(world, loaded, rested);
    lemma_usage_only_touches_bloodstreams(rested);
    let used = usage_spec(rested);
    lemma_world_may_become_in_steps(world, rested, used);
    lemma_usage_only_touches_bloodstreams(used);
    let after = update_proportions_on_exhaust_spec(used);
    lemma_world_may_become_in_steps(world, used, after);
}

/// Any sequence of ticks keeps the world well formed.
pub proof fn lemma_ticks_keep_wf(world: Seq<Components>, batches: Seq<Seq<BreathTaken>>)
    requires
        world_wf(world),
    ensures
        world_wf(ticks_spec(world, batches)),
    decreases batches.len(),
{
    if batches.len() > 0 {
        lemma_ticks_keep_wf(world, batches.drop_last());
        lemma_tick_keeps_wf(ticks_spec(world, batches.drop_last()), batches.last());
    }
}

} // verus!
