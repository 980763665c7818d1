use respiration::circulation::equalization::BloodstreamPressure;
use respiration::circulation::oxygen::{oxygen_damage, OxygenHazard};
use respiration::health::DamageEvent;
use respiration::helpers::UNIT;
use respiration::inhalation::BloodstreamContent;
use respiration::world::{Components, World};

#[test]
fn did_toxicity_damage() {
    let mut world = World::new();
    let breather_id = world.spawn(Components {
        oxygen_hazard: Some(OxygenHazard {
            po2_upper: 3 * UNIT,
            po2_lower: UNIT,
            damage_factor: UNIT,
        }),
        bloodstream_pressure: Some(BloodstreamPressure(4 * UNIT)),
        bloodstream_content: Some(BloodstreamContent {
            capacity: 100 * UNIT,
            amount_remaining: 100 * UNIT,
            proportion_of_oxygen: UNIT,
            proportion_of_nitrogen: 0,
        }),
        ..Components::default()
    });
    let mut damage_events: Vec<DamageEvent> = Vec::new();
    oxygen_damage(&world, &mut damage_events);
    let damage = damage_events.first().unwrap();
    assert_eq!(damage.target, breather_id);
    assert_eq!(damage.damage, u128::from(UNIT));
}

#[test]
fn did_no_oxygen_damage() {
    let mut world = World::new();
    world.spawn(Components {
        oxygen_hazard: Some(OxygenHazard {
            po2_upper: 3 * UNIT,
            po2_lower: UNIT,
            damage_factor: UNIT,
        }),
        bloodstream_pressure: Some(BloodstreamPressure(2 * UNIT)),
        bloodstream_content: Some(BloodstreamContent {
            capacity: 100 * UNIT,
            amount_remaining: 100 * UNIT,
            proportion_of_oxygen: UNIT,
            proportion_of_nitrogen: 0,
        }),
        ..Components::default()
    });
    let mut damage_events: Vec<DamageEvent> = Vec::new();
    oxygen_damage(&world, &mut damage_events);
    assert!(damage_events.first().is_none());
}

#[test]
fn did_hypoxia_damage() {
    let mut world = World::new();
    let breather_id = world.spawn(Components {
        oxygen_hazard: Some(OxygenHazard {
            po2_upper: 3 * UNIT,
            po2_lower: 2 * UNIT,
            damage_factor: UNIT,
        }),
        bloodstream_pressure: Some(BloodstreamPressure(UNIT)),
        bloodstream_content: Some(BloodstreamContent {
            capacity: 100 * UNIT,
            amount_remaining: 100 * UNIT,
            proportion_of_oxygen: UNIT,
            proportion_of_nitrogen: 0,
        }),
        ..Components::default()
    });
    let mut damage_events: Vec<DamageEvent> = Vec::new();
    oxygen_damage(&world, &mut damage_events);
    let damage = damage_events.first().unwrap();
    assert_eq!(damage.target, breather_id);
    assert_eq!(damage.damage, u128::from(UNIT));
}

#[test]
fn oxygen_on_the_bounds_does_no_harm() {
    let hazard = OxygenHazard { po2_upper: 3 * UNIT, po2_lower: UNIT, damage_factor: 2 * UNIT };
    let pure = BloodstreamContent {
        capacity: 100 * UNIT,
        amount_remaining: 100 * UNIT,
        proportion_of_oxygen: UNIT,
        proportion_of_nitrogen: 0,
    };
    assert!(hazard.assess(1, &BloodstreamPressure(3 * UNIT), &pure).is_none());
    assert!(hazard.assess(1, &BloodstreamPressure(UNIT), &pure).is_none());
    assert_eq!(
        hazard.assess(1, &BloodstreamPressure(3 * UNIT + 1), &pure),
        Some(DamageEvent { target: 1, damage: 2 })
    );
    assert_eq!(
        hazard.assess(1, &BloodstreamPressure(UNIT - 1), &pure),
        Some(DamageEvent { target: 1, damage: 2 })
    );
}

#[test]
fn oxygen_harm_is_the_factor_times_the_distance() {
    let hazard = OxygenHazard { po2_upper: 1_400_000, po2_lower: 160_000, damage_factor: 2_500_000 };
    let air = BloodstreamContent {
        capacity: 100 * UNIT,
        amount_remaining: 100 * UNIT,
        proportion_of_oxygen: 210_000,
        proportion_of_nitrogen: 780_000,
    };
    // 0.21 of 10 bar is 2.1 bar, 0.7 over the bound: 2.5 times that is 1.75
    assert_eq!(
        hazard.assess(6, &BloodstreamPressure(10 * UNIT), &air),
        Some(DamageEvent { target: 6, damage: 1_750_000 })
    );
    // 0.21 of 0.5 bar is 0.105 bar, 0.055 under the bound: 2.5 times that is 0.1375
    assert_eq!(
        hazard.assess(6, &BloodstreamPressure(UNIT / 2), &air),
        Some(DamageEvent { target: 6, damage: 137_500 })
    );
    // 0.21 of 1 bar lies within the band
    assert_eq!(hazard.assess(6, &BloodstreamPressure(UNIT), &air), None);
}

#[test]
fn oxygen_harm_fits_whatever_the_factor() {
    let hazard = OxygenHazard { po2_upper: 0, po2_lower: 0, damage_factor: u64::MAX };
    let pure = BloodstreamContent {
        capacity: 0,
        amount_remaining: 0,
        proportion_of_oxygen: UNIT,
        proportion_of_nitrogen: 0,
    };
    let damage = hazard.assess(0, &BloodstreamPressure(u64::MAX), &pure).unwrap();
    assert_eq!(damage.damage, u128::from(u64::MAX) * u128::from(u64::MAX) / 1_000_000);
}

#[test]
fn an_empty_band_harms_from_above_first() {
    let hazard = OxygenHazard { po2_upper: UNIT, po2_lower: 5 * UNIT, damage_factor: UNIT };
    let pure = BloodstreamContent {
        capacity: 0,
        amount_remaining: 0,
        proportion_of_oxygen: UNIT,
        proportion_of_nitrogen: 0,
    };
    assert_eq!(
        hazard.assess(2, &BloodstreamPressure(3 * UNIT), &pure),
        Some(DamageEvent { target: 2, damage: u128::from(2 * UNIT) })
    );
    assert_eq!(
        hazard.assess(2, &BloodstreamPressure(UNIT / 2), &pure),
        Some(DamageEvent { target: 2, damage: u128::from(4 * UNIT + UNIT / 2) })
    );
}

#[test]
fn oxygen_judges_every_breather_once_in_order() {
    let mut world = World::new();
    let hazard = OxygenHazard { po2_upper: 3 * UNIT, po2_lower: UNIT, damage_factor: UNIT };
    let pure = BloodstreamContent {
        capacity: 100 * UNIT,
        amount_remaining: 100 * UNIT,
        proportion_of_oxygen: UNIT,
        proportion_of_nitrogen: 0,
    };
    let poisoned_id = world.spawn(Components {
        oxygen_hazard: Some(hazard),
        bloodstream_pressure: Some(BloodstreamPressure(5 * UNIT)),
        bloodstream_content: Some(pure),
        ..Components::default()
    });
    world.spawn(Components {
        bloodstream_pressure: Some(BloodstreamPressure(5 * UNIT)),
        bloodstream_content: Some(pure),
        ..Components::default()
    });
    world.spawn(Components {
        oxygen_hazard: Some(hazard),
        bloodstream_content: Some(pure),
        ..Components::default()
    });
    world.spawn(Components {
        oxygen_hazard: Some(hazard),
        bloodstream_pressure: Some(BloodstreamPressure(5 * UNIT)),
        ..Components::default()
    });
    world.spawn(Components {
        oxygen_hazard: Some(hazard),
        bloodstream_pressure: Some(BloodstreamPressure(2 * UNIT)),
        bloodstream_content: Some(pure),
        ..Components::default()
    });
    let starved_id = world.spawn(Components {
        oxygen_hazard: Some(hazard),
        bloodstream_pressure: Some(BloodstreamPressure(UNIT / 4)),
        bloodstream_content: Some(pure),
        ..Components::default()
    });
    let before = world.entities.clone();
    let mut damage_events = vec![DamageEvent { target: 40, damage: 4 }];
    oxygen_damage(&world, &mut damage_events);
    assert_eq!(
        damage_events,
        vec![
            DamageEvent { target: 40, damage: 4 },
            DamageEvent { target: poisoned_id, damage: u128::from(2 * UNIT) },
            DamageEvent { target: starved_id, damage: u128::from(3 * UNIT / 4) },
        ]
    );
    assert_eq!(world.entities, before);
}

#[test]
fn default_oxygen_hazard_is_the_human_band_without_harm() {
    assert_eq!(
        OxygenHazard::default(),
        OxygenHazard { po2_upper: 1_400_000, po2_lower: 160_000, damage_factor: 0 }
    );
}
