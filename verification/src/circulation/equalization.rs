//! Equalization: the bloodstream's pressure follows the water's, and its
//! composition follows the gas that comes in.

use crate::circulation::{gases_wf, CirculateGas};
use crate::helpers::{
    lemma_scaled_product_of_proportion, lemma_weighted_average_between, scaled_product,
    scaled_product_spec, weighted_average, weighted_average_spec, UNIT,
};
use crate::inhalation::BloodstreamContent;
use crate::position::Depth;
use crate::world::{
    lemma_world_may_become_in_steps, lookup, push_some, store, world_may_become, world_wf,
    Components, World,
};
use crate::EntityId;
use vstd::prelude::*;

verus! {

/// The pressure of the air at the surface, in bar.
pub const ATMOSPHERIC_PRESSURE_BAR: u64 = 1_000_000;

/// The pressure that each metre of sea water adds, in bar.
pub const BAR_MSW_RATIO: u64 = 100_000;

/// The pressure under which the gas in the bloodstream stands, in bar as a
/// fixed-point number.
#[derive(Clone, Copy, Debug, PartialEq, Eq, Structural)]
pub struct BloodstreamPressure(pub u64);

/// Gas that came out of solution in the bloodstream of `entity` because
/// its pressure fell by `amount`.
#[derive(Clone, Copy, Debug, PartialEq, Eq, Structural)]
pub struct Outgassing {
    pub entity: EntityId,
    pub amount: u64,
}

/// The pressure of the water at `depth`.
pub open spec fn pressure_at_depth_spec(depth: Depth) -> int {
    ATMOSPHERIC_PRESSURE_BAR + scaled_product_spec(BAR_MSW_RATIO as int, depth.0 as int)
}

/// The pressure that `proportion` of a gas exerts under `pressure`.
pub open spec fn partial_pressure_spec(proportion: u64, pressure: BloodstreamPressure) -> int {
    scaled_product_spec(proportion as int, pressure.0 as int)
}

/// What a change of pressure announces: the drop where the pressure fell,
/// nothing where it held or rose.
pub open spec fn outgassing_event(entity: EntityId, before: int, after: int) -> Option<Outgassing> {
    if after < before {
        Some(Outgassing { entity, amount: (before - after) as u64 })
    } else {
        None
    }
}

/// The pressure of the water at `depth`.
pub fn pressure_at_depth(depth: &Depth) -> (pressure: u64)
    ensures
        pressure == pressure_at_depth_spec(*depth),
{
    let added: u128 = scaled_product(BAR_MSW_RATIO, depth.0);
    ATMOSPHERIC_PRESSURE_BAR + added as u64
}

impl BloodstreamPressure {
    /// The pressure after `gas` has arrived under `ambient_pressure`: the
    /// average of the pressure so far, weighted by what the bloodstream
    /// held before the gas, and the ambient pressure, weighted by the
    /// amount of gas.
    pub open spec fn after_equalizing_toward(
        self,
        bloodstream_content: BloodstreamContent,
        ambient_pressure: int,
        gas: CirculateGas,
    ) -> BloodstreamPressure {
        BloodstreamPressure(
            weighted_average_spec(
                self.0 as int,
                bloodstream_content.amount_remaining as int,
                ambient_pressure,
                gas.amount as int,
            ) as u64,
        )
    }

    /// The pressure after `gas` has arrived at `depth`.
    pub open spec fn after_equalizing(
        self,
        bloodstream_content: BloodstreamContent,
        depth: Depth,
        gas: CirculateGas,
    ) -> BloodstreamPressure {
        self.after_equalizing_toward(bloodstream_content, pressure_at_depth_spec(depth), gas)
    }

    /// Moves the pressure toward `ambient_pressure` as `gas` arrives, and
    /// reports the gas that a fall in pressure sets free. It must run
    /// before the intake of `gas`: the weight is what the bloodstream held
    /// before.
    pub fn equalize_toward(
        &mut self,
        bloodstream_content: &BloodstreamContent,
        ambient_pressure: u64,
        gas: &CirculateGas,
    ) -> (outgassing: Option<Outgassing>)
        ensures
            *final(self) == old(self).after_equalizing_toward(
                *bloodstream_content,
                ambient_pressure as int,
                *gas,
            ),
            outgassing == outgassing_event(gas.entity, old(self).0 as int, final(self).0 as int),
    {
        let before: u64 = self.0;
        let after: u64 = weighted_average(
            before,
            bloodstream_content.amount_remaining,
            ambient_pressure,
            gas.amount,
        );
        self.0 = after;
        if after < before {
            Some(Outgassing { entity: gas.entity, amount: before - after })
        } else {
            None
        }
    }

    /// Moves the pressure toward that of the water at `depth` as `gas`
    /// arrives, and reports the gas that a fall in pressure sets free.
    pub fn equalize(
        &mut self,
        bloodstream_content: &BloodstreamContent,
        depth: &Depth,
        gas: &CirculateGas,
    ) -> (outgassing: Option<Outgassing>)
        ensures
            *final(self) == old(self).after_equalizing(*bloodstream_content, *depth, *gas),
            outgassing == outgassing_event(gas.entity, old(self).0 as int, final(self).0 as int),
    {
        let ambient_pressure: u64 = pressure_at_depth(depth);
        self.equalize_toward(bloodstream_content, ambient_pressure, gas)
    }

    /// The pressure that `proportion` of a gas exerts in this bloodstream.
    pub fn partial_pressure(&self, proportion: u64) -> (pressure: u64)
        requires
            proportion <= UNIT,
        ensures
            pressure == partial_pressure_spec(proportion, *self),
            pressure <= self.0,
    {
        proof {
            lemma_scaled_product_of_proportion(proportion as int, self.0 as int);
        }
        scaled_product(proportion, self.0) as u64
    }
}

impl Default for BloodstreamPressure {
    /// The pressure at the surface.
    fn default() -> (pressure: Self)
        ensures
            pressure == BloodstreamPressure(ATMOSPHERIC_PRESSURE_BAR),
    {
        BloodstreamPressure(ATMOSPHERIC_PRESSURE_BAR)
    }
}

impl BloodstreamContent {
    /// The bloodstream after `gas` has mixed in: each proportion is the
    /// average of what it was, weighted by what the bloodstream held before
    /// the gas, and what the gas brings, weighted by its amount.
    pub open spec fn after_blending(self, gas: CirculateGas) -> BloodstreamContent {
        BloodstreamContent {
            proportion_of_oxygen: weighted_average_spec(
                self.proportion_of_oxygen as int,
                self.amount_remaining as int,
                gas.proportion_of_oxygen as int,
                gas.amount as int,
            ) as u64,
            proportion_of_nitrogen: weighted_average_spec(
                self.proportion_of_nitrogen as int,
                self.amount_remaining as int,
                gas.proportion_of_nitrogen as int,
                gas.amount as int,
            ) as u64,
            ..self
        }
    }

    /// Mixes the composition of `gas` into the bloodstream. It must run
    /// before the intake of `gas`: the weight is what the bloodstream held
    /// before.
    pub fn blend(&mut self, gas: &CirculateGas)
        ensures
            *final(self) == old(self).after_blending(*gas),
            old(self).wf() && gas.wf() ==> final(self).wf(),
    {
        self.proportion_of_oxygen = weighted_average(
            self.proportion_of_oxygen,
            self.amount_remaining,
            gas.proportion_of_oxygen,
            gas.amount,
        );
        self.proportion_of_nitrogen = weighted_average(
            self.proportion_of_nitrogen,
            self.amount_remaining,
            gas.proportion_of_nitrogen,
            gas.amount,
        );
    }
}

/// The arrival of `gas` as the pressure of its breather sees it. A breather
/// without a pressure, a bloodstream or a depth is passed over.
pub open spec fn equalize_pressure_for(world: Seq<Components>, gas: CirculateGas) -> (
    Seq<Components>,
    Option<Outgassing>,
) {
    let breather = lookup(world, gas.entity);
    match (breather.bloodstream_pressure, breather.bloodstream_content, breather.depth) {
        (Some(bloodstream_pressure), Some(bloodstream_content), Some(depth)) => {
            let equalized = bloodstream_pressure.after_equalizing(bloodstream_content, depth, gas);
            (
                store(
                    world,
                    gas.entity,
                    Components { bloodstream_pressure: Some(equalized), ..breather },
                ),
                outgassing_event(gas.entity, bloodstream_pressure.0 as int, equalized.0 as int),
            )
        },
        _ => (world, None),
    }
}

/// The pressures after the gas of one tick has arrived, event by event in
/// order, and the outgassing that the falls in pressure set free.
pub open spec fn equalize_pressure_spec(world: Seq<Components>, gases: Seq<CirculateGas>) -> (
    Seq<Components>,
    Seq<Outgassing>,
)
    decreases gases.len(),
{
    if gases.len() == 0 {
        (world, Seq::empty())
    } else {
        let (before, outgassings) = equalize_pressure_spec(world, gases.drop_last());
        let (after, outgassing) = equalize_pressure_for(before, gases.last());
        (after, push_some(outgassings, outgassing))
    }
}

/// The arrival of `gas` as the composition of its breather's bloodstream
/// sees it. A breather without a bloodstream is passed over.
pub open spec fn equalize_gases_for(world: Seq<Components>, gas: CirculateGas) -> Seq<Components> {
    let breather = lookup(world, gas.entity);
    match breather.bloodstream_content {
        Some(bloodstream_content) => store(
            world,
            gas.entity,
            Components {
                bloodstream_content: Some(bloodstream_content.after_blending(gas)),
                ..breather
            },
        ),
        None => world,
    }
}

/// The compositions after the gas of one tick has mixed in, event by event
/// in order.
pub open spec fn equalize_gases_spec(world: Seq<Components>, gases: Seq<CirculateGas>) -> Seq<
    Components,
>
    decreases gases.len(),
{
    if gases.len() == 0 {
        world
    } else {
        equalize_gases_for(equalize_gases_spec(world, gases.drop_last()), gases.last())
    }
}

/// The pressure half of equalization: moves the pressure of each breather
/// that `gases_to_circulate` names toward the pressure at its depth, and
/// appends the outgassing set free to `outgassings`. It must run before
/// `intake_gas`.
pub fn equalize_pressure(
    world: &mut World,
    gases_to_circulate: &Vec<CirculateGas>,
    outgassings: &mut Vec<Outgassing>,
)
    ensures
        final(world)@ == equalize_pressure_spec(old(world)@, gases_to_circulate@).0,
        final(outgassings)@ == old(outgassings)@ + equalize_pressure_spec(
            old(world)@,
            gases_to_circulate@,
        ).1,
        old(world).wf() ==> final(world).wf(),
{
    let ghost world_before = world@;
    let ghost outgassings_before = outgassings@;
    let mut index: usize = 0;
    while index < gases_to_circulate.len()
        invariant
            index <= gases_to_circulate.len(),
            world_before == old(world)@,
            old(world).wf() ==> world.wf(),
            world@ == equalize_pressure_spec(
                world_before,
                gases_to_circulate@.take(index as int),
            ).0,
            outgassings@ == outgassings_before + equalize_pressure_spec(
                world_before,
                gases_to_circulate@.take(index as int),
            ).1,
        decreases gases_to_circulate.len() - index,
    {
        let gas = gases_to_circulate[index];
        proof {
            assert(gases_to_circulate@.take(index + 1).drop_last() == gases_to_circulate@.take(
                index as int,
            ));
        }
        let mut breather = world.get(gas.entity);
        match (breather.bloodstream_pressure, breather.bloodstream_content, breather.depth) {
            (Some(mut bloodstream_pressure), Some(bloodstream_content), Some(depth)) => {
                let outgassing = bloodstream_pressure.equalize(&bloodstream_content, &depth, &gas);
                breather.bloodstream_pressure = Some(bloodstream_pressure);
                world.set(gas.entity, breather);
                match outgassing {
                    Some(outgassing) => {
                        outgassings.push(outgassing);
                    },
                    None => {},
                }
            },
            _ => {},
        }
        index += 1;
    }
    proof {
        assert(gases_to_circulate@.take(index as int) == gases_to_circulate@);
    }
}

/// The composition half of equalization: mixes each event of
/// `gases_to_circulate` into the bloodstream of the breather it names. It
/// must run before `intake_gas`.
pub fn equalize_gases(world: &mut World, gases_to_circulate: &Vec<CirculateGas>)
    ensures
        final(world)@ == equalize_gases_spec(old(world)@, gases_to_circulate@),
        old(world).wf() && gases_wf(gases_to_circulate@) ==> final(world).wf(),
{
    let ghost world_before = world@;
    let mut index: usize = 0;
    while index < gases_to_circulate.len()
        invariant
            index <= gases_to_circulate.len(),
            world_before == old(world)@,
            old(world).wf() && gases_wf(gases_to_circulate@) ==> world.wf(),
            world@ == equalize_gases_spec(world_before, gases_to_circulate@.take(index as int)),
        decreases gases_to_circulate.len() - index,
    {
        let gas = gases_to_circulate[index];
        proof {
            assert(gases_to_circulate@.take(index + 1).drop_last() == gases_to_circulate@.take(
                index as int,
            ));
        }
        let mut breather = world.get(gas.entity);
        match breather.bloodstream_content {
            Some(mut bloodstream_content) => {
                bloodstream_content.blend(&gas);
                breather.bloodstream_content = Some(bloodstream_content);
                world.set(gas.entity, breather);
            },
            None => {},
        }
        index += 1;
    }
    proof {
        assert(gases_to_circulate@.take(index as int) == gases_to_circulate@);
    }
}

/// Equalizing never carries the pressure beyond the two it blends: the new
/// pressure lies between the old one and the ambient one.
pub proof fn lemma_equalized_pressure_between(
    pressure: BloodstreamPressure,
    bloodstream_content: BloodstreamContent,
    ambient_pressure: u64,
    gas: CirculateGas,
)
    ensures
        pressure.0 <= ambient_pressure ==> pressure.0 <= pressure.after_equalizing_toward(
            bloodstream_content,
            ambient_pressure as int,
            gas,
        ).0 <= ambient_pressure,
        ambient_pressure <= pressure.0 ==> ambient_pressure <= pressure.after_equalizing_toward(
            bloodstream_content,
            ambient_pressure as int,
            gas,
        ).0 <= pressure.0,
{
    lemma_weighted_average_between(
        pressure.0 as int,
        bloodstream_content.amount_remaining as int,
        ambient_pressure as int,
        gas.amount as int,
    );
}

/// Blending keeps a bloodstream well formed: proportions stay proportions,
/// and the amount held does not change.
pub proof fn lemma_blending_keeps_proportions(
    bloodstream_content: BloodstreamContent,
    gas: CirculateGas,
)
    requires
        bloodstream_content.wf(),
        gas.wf(),
    ensures
        bloodstream_content.after_blending(gas).wf(),
        bloodstream_content.after_blending(gas).amount_remaining
            == bloodstream_content.amount_remaining,
        bloodstream_content.after_blending(gas).capacity == bloodstream_content.capacity,
{
    lemma_weighted_average_between(
        bloodstream_content.proportion_of_oxygen as int,
        bloodstream_content.amount_remaining as int,
        gas.proportion_of_oxygen as int,
        gas.amount as int,
    );
    lemma_weighted_average_between(
        bloodstream_content.proportion_of_nitrogen as int,
        bloodstream_content.amount_remaining as int,
        gas.proportion_of_nitrogen as int,
        gas.amount as int,
    );
}

/// The pressure half of equalization touches nothing but pressures, and
/// the composition half nothing but the proportions in bloodstreams.
pub proof fn lemma_equalization_only_touches_pressure_and_proportions(
    world: Seq<Components>,
    gases: Seq<CirculateGas>,
)
    ensures
        world_may_become(world, equalize_pressure_spec(world, gases).0),
        world_may_become(world, equalize_gases_spec(world, gases)),
        forall|entity: int|
            0 <= entity < world.len() ==> (#[trigger] equalize_pressure_spec(
                world,
                gases,
            ).0[entity]) == (Components {
                bloodstream_pressure: equalize_pressure_spec(
                    world,
                    gases,
                ).0[entity].bloodstream_pressure,
                ..world[entity]
            }),
        forall|entity: int|
            0 <= entity < world.len() ==> (#[trigger] equalize_gases_spec(
                world,
                gases,
            )[entity]).diving_cylinder == world[entity].diving_cylinder
                && equalize_gases_spec(world, gases)[entity].bloodstream_pressure
                == world[entity].bloodstream_pressure && equalize_gases_spec(
                world,
                gases,
            )[entity].gas_exchange_in_lungs == world[entity].gas_exchange_in_lungs && (
            world[entity].bloodstream_content matches Some(content) ==> equalize_gases_spec(
                world,
                gases,
            )[entity].bloodstream_content->0.amount_remaining == content.amount_remaining),
    decreases gases.len(),
{
    if gases.len() > 0 {
        lemma_equalization_only_touches_pressure_and_proportions(world, gases.drop_last());
        let pressures_before = equalize_pressure_spec(world, gases.drop_last()).0;
        lemma_world_may_become_in_steps(
            world,
            pressures_before,
            equalize_pressure_for(pressures_before, gases.last()).0,
        );
        let gases_before = equalize_gases_spec(world, gases.drop_last());
        lemma_world_may_become_in_steps(
            world,
            gases_before,
            equalize_gases_for(gases_before, gases.last()),
        );
    } else {
        lemma_world_may_become_in_steps(world, world, world);
    }
}

/// The pressure half of equalization keeps the world well formed.
pub proof fn lemma_equalize_pressure_keeps_wf(world: Seq<Components>, gases: Seq<CirculateGas>)
    requires
        world_wf(world),
    ensures
        world_wf(equalize_pressure_spec(world, gases).0),
        equalize_pressure_spec(world, gases).0.len() == world.len(),
    decreases gases.len(),
{
    if gases.len() > 0 {
        lemma_equalize_pressure_keeps_wf(world, gases.drop_last());
    }
}

/// The composition half of equalization keeps the world well formed, as
/// long as the gas that arrives is well formed.
pub proof fn lemma_equalize_gases_keeps_wf(world: Seq<Components>, gases: Seq<CirculateGas>)
    requires
        world_wf(world),
        gases_wf(gases),
    ensures
        world_wf(equalize_gases_spec(world, gases)),
        equalize_gases_spec(world, gases).len() == world.len(),
    decreases gases.len(),
{
    if gases.len() > 0 {
        lemma_equalize_gases_keeps_wf(world, gases.drop_last());
        let before = equalize_gases_spec(world, gases.drop_last());
        let gas = gases.last();
        if lookup(before, gas.entity).bloodstream_content is Some {
            lemma_blending_keeps_proportions(
                lookup(before, gas.entity).bloodstream_content->0,
                gas,
            );
        }
    }
}

} // verus!
