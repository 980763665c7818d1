use respiration::circulation::CirculateGas;
use respiration::helpers::UNIT;
use respiration::inhalation::{
    inhalation, BloodstreamContent, BreathTaken, DivingCylinder, EquippedTank, AIR_N2_RATIO,
    AIR_O2_RATIO,
};
use respiration::world::{Components, World};

#[test]
fn did_inhale_full() {
    let mut world = World::new();
    let cylinder_id = world.spawn(Components::cylinder(DivingCylinder {
        capacity: 100 * UNIT,
        amount_remaining: 100 * UNIT,
        proportion_of_oxygen: UNIT / 2,
        proportion_of_nitrogen: UNIT / 2,
    }));
    let breather_id = world.spawn(Components {
        bloodstream_content: Some(BloodstreamContent {
            capacity: 100 * UNIT,
            amount_remaining: 50 * UNIT,
            proportion_of_oxygen: 0,
            proportion_of_nitrogen: 0,
        }),
        equipped_tank: Some(EquippedTank(cylinder_id)),
        ..Components::default()
    });
    let breaths = vec![BreathTaken { entity: breather_id }];
    let mut circulate_gas: Vec<CirculateGas> = Vec::new();
    inhalation(&mut world, &breaths, &mut circulate_gas);
    // the cylinder should be half empty
    let new_cylinder = world.get(cylinder_id).diving_cylinder.unwrap();
    assert_eq!(new_cylinder.amount_remaining, 50 * UNIT);
    // should have sent an event
    let gas_to_circulate = circulate_gas.first().unwrap();
    assert_eq!(gas_to_circulate.entity, breather_id);
    assert_eq!(gas_to_circulate.amount, 50 * UNIT);
    assert_eq!(gas_to_circulate.proportion_of_oxygen, UNIT / 2);
}

#[test]
fn did_inhale_partial() {
    let mut world = World::new();
    let cylinder_id = world.spawn(Components::cylinder(DivingCylinder {
        capacity: 100 * UNIT,
        amount_remaining: 50 * UNIT,
        proportion_of_oxygen: UNIT / 2,
        proportion_of_nitrogen: UNIT / 2,
    }));
    let breather_id = world.spawn(Components {
        bloodstream_content: Some(BloodstreamContent {
            capacity: 100 * UNIT,
            amount_remaining: 25 * UNIT,
            proportion_of_oxygen: 0,
            proportion_of_nitrogen: 0,
        }),
        equipped_tank: Some(EquippedTank(cylinder_id)),
        ..Components::default()
    });
    let breaths = vec![BreathTaken { entity: breather_id }];
    let mut circulate_gas: Vec<CirculateGas> = Vec::new();
    inhalation(&mut world, &breaths, &mut circulate_gas);
    // the cylinder should be empty
    let new_cylinder = world.get(cylinder_id).diving_cylinder.unwrap();
    assert_eq!(new_cylinder.amount_remaining, 0);
    // should have sent an event
    let gas_to_circulate = circulate_gas.first().unwrap();
    assert_eq!(gas_to_circulate.entity, breather_id);
    assert_eq!(gas_to_circulate.amount, 50 * UNIT);
    assert_eq!(gas_to_circulate.proportion_of_oxygen, UNIT / 2);
    assert_eq!(gas_to_circulate.proportion_of_nitrogen, UNIT / 2);
}

#[test]
fn did_not_inhale_empty_cylinder() {
    let mut world = World::new();
    let cylinder_id = world.spawn(Components::cylinder(DivingCylinder {
        capacity: 100 * UNIT,
        amount_remaining: 0,
        proportion_of_oxygen: 0,
        proportion_of_nitrogen: 0,
    }));
    let breather_id = world.spawn(Components {
        bloodstream_content: Some(BloodstreamContent {
            capacity: 100 * UNIT,
            amount_remaining: 50 * UNIT,
            proportion_of_oxygen: UNIT / 2,
            proportion_of_nitrogen: UNIT / 2,
        }),
        equipped_tank: Some(EquippedTank(cylinder_id)),
        ..Components::default()
    });
    let breaths = vec![BreathTaken { entity: breather_id }];
    let mut circulate_gas: Vec<CirculateGas> = Vec::new();
    inhalation(&mut world, &breaths, &mut circulate_gas);
    // the cylinder should still be empty
    let new_cylinder = world.get(cylinder_id).diving_cylinder.unwrap();
    assert_eq!(new_cylinder.amount_remaining, 0);
    // should not have sent an event
    assert!(circulate_gas.first().is_none());
}

#[test]
fn did_not_inhale_full_bloodstream() {
    let mut world = World::new();
    let cylinder = DivingCylinder {
        capacity: 100 * UNIT,
        amount_remaining: 80 * UNIT,
        proportion_of_oxygen: AIR_O2_RATIO,
        proportion_of_nitrogen: AIR_N2_RATIO,
    };
    let cylinder_id = world.spawn(Components::cylinder(cylinder));
    let breather_id = world.spawn(Components {
        bloodstream_content: Some(BloodstreamContent {
            capacity: 100 * UNIT,
            amount_remaining: 100 * UNIT,
            proportion_of_oxygen: UNIT / 2,
            proportion_of_nitrogen: UNIT / 2,
        }),
        equipped_tank: Some(EquippedTank(cylinder_id)),
        ..Components::default()
    });
    let before = world.entities.clone();
    let breaths = vec![
        BreathTaken { entity: breather_id },
        BreathTaken { entity: breather_id },
        BreathTaken { entity: breather_id },
    ];
    let mut circulate_gas: Vec<CirculateGas> = Vec::new();
    inhalation(&mut world, &breaths, &mut circulate_gas);
    assert_eq!(world.entities, before);
    assert_eq!(world.get(cylinder_id).diving_cylinder, Some(cylinder));
    assert!(circulate_gas.is_empty());
}

#[test]
fn did_not_inhale_without_tank() {
    let mut world = World::new();
    let cylinder = DivingCylinder {
        capacity: 100 * UNIT,
        amount_remaining: 100 * UNIT,
        proportion_of_oxygen: UNIT / 2,
        proportion_of_nitrogen: UNIT / 2,
    };
    let cylinder_id = world.spawn(Components::cylinder(cylinder));
    let breather_id = world.spawn(Components {
        bloodstream_content: Some(BloodstreamContent {
            capacity: 100 * UNIT,
            amount_remaining: 50 * UNIT,
            proportion_of_oxygen: 0,
            proportion_of_nitrogen: 0,
        }),
        ..Components::default()
    });
    let breaths = vec![BreathTaken { entity: breather_id }];
    let mut circulate_gas: Vec<CirculateGas> = Vec::new();
    inhalation(&mut world, &breaths, &mut circulate_gas);
    assert_eq!(world.get(cylinder_id).diving_cylinder, Some(cylinder));
    assert!(circulate_gas.is_empty());
}

#[test]
fn did_not_inhale_from_missing_cylinder() {
    let mut world = World::new();
    // the tank that is equipped does not exist, the one after it is no cylinder
    let breather_id = world.spawn(Components {
        bloodstream_content: Some(BloodstreamContent {
            capacity: 100 * UNIT,
            amount_remaining: 50 * UNIT,
            proportion_of_oxygen: 0,
            proportion_of_nitrogen: 0,
        }),
        equipped_tank: Some(EquippedTank(17)),
        ..Components::default()
    });
    let bystander_id = world.spawn(Components::default());
    let confused_id = world.spawn(Components {
        bloodstream_content: Some(BloodstreamContent {
            capacity: 100 * UNIT,
            amount_remaining: 50 * UNIT,
            proportion_of_oxygen: 0,
            proportion_of_nitrogen: 0,
        }),
        equipped_tank: Some(EquippedTank(bystander_id)),
        ..Components::default()
    });
    let before = world.entities.clone();
    let breaths = vec![
        BreathTaken { entity: breather_id },
        BreathTaken { entity: confused_id },
        BreathTaken { entity: bystander_id },
        BreathTaken { entity: 99 },
    ];
    let mut circulate_gas: Vec<CirculateGas> = Vec::new();
    inhalation(&mut world, &breaths, &mut circulate_gas);
    assert_eq!(world.entities, before);
    assert!(circulate_gas.is_empty());
}

#[test]
fn breaths_are_taken_in_order() {
    let mut world = World::new();
    let cylinder_id = world.spawn(Components::cylinder(DivingCylinder {
        capacity: 100 * UNIT,
        amount_remaining: 70 * UNIT,
        proportion_of_oxygen: AIR_O2_RATIO,
        proportion_of_nitrogen: AIR_N2_RATIO,
    }));
    let first_id = world.spawn(Components {
        bloodstream_content: Some(BloodstreamContent {
            capacity: 100 * UNIT,
            amount_remaining: 50 * UNIT,
            proportion_of_oxygen: 0,
            proportion_of_nitrogen: 0,
        }),
        equipped_tank: Some(EquippedTank(cylinder_id)),
        ..Components::default()
    });
    let second_id = world.spawn(Components {
        bloodstream_content: Some(BloodstreamContent {
            capacity: 40 * UNIT,
            amount_remaining: 10 * UNIT,
            proportion_of_oxygen: 0,
            proportion_of_nitrogen: 0,
        }),
        equipped_tank: Some(EquippedTank(cylinder_id)),
        ..Components::default()
    });
    let breaths = vec![BreathTaken { entity: first_id }, BreathTaken { entity: second_id }];
    let mut circulate_gas = vec![CirculateGas {
        entity: 5,
        amount: 1,
        proportion_of_oxygen: 2,
        proportion_of_nitrogen: 3,
    }];
    inhalation(&mut world, &breaths, &mut circulate_gas);
    assert_eq!(
        circulate_gas,
        vec![
            CirculateGas { entity: 5, amount: 1, proportion_of_oxygen: 2, proportion_of_nitrogen: 3 },
            CirculateGas {
                entity: first_id,
                amount: 50 * UNIT,
                proportion_of_oxygen: AIR_O2_RATIO,
                proportion_of_nitrogen: AIR_N2_RATIO,
            },
            CirculateGas {
                entity: second_id,
                amount: 20 * UNIT,
                proportion_of_oxygen: AIR_O2_RATIO,
                proportion_of_nitrogen: AIR_N2_RATIO,
            },
        ]
    );
    assert_eq!(world.get(cylinder_id).diving_cylinder.unwrap().amount_remaining, 0);
    // inhalation announces the transfer, it does not fill the bloodstream
    assert_eq!(world.get(first_id).bloodstream_content.unwrap().amount_remaining, 50 * UNIT);
    assert_eq!(world.get(second_id).bloodstream_content.unwrap().amount_remaining, 10 * UNIT);
}

#[test]
fn supply_breath_gives_the_smaller_of_room_and_supply() {
    let bloodstream_content = BloodstreamContent {
        capacity: 10 * UNIT,
        amount_remaining: 4 * UNIT,
        proportion_of_oxygen: 0,
        proportion_of_nitrogen: 0,
    };
    let mut plenty = DivingCylinder {
        capacity: 50 * UNIT,
        amount_remaining: 50 * UNIT,
        proportion_of_oxygen: 300_000,
        proportion_of_nitrogen: 700_000,
    };
    let gas = plenty.supply_breath(3, &bloodstream_content).unwrap();
    assert_eq!(gas.amount, 6 * UNIT);
    assert_eq!(plenty.amount_remaining, 44 * UNIT);
    assert_eq!(plenty.capacity, 50 * UNIT);
    let mut scarce = DivingCylinder {
        capacity: 50 * UNIT,
        amount_remaining: 1,
        proportion_of_oxygen: 300_000,
        proportion_of_nitrogen: 700_000,
    };
    let gas = scarce.supply_breath(3, &bloodstream_content).unwrap();
    assert_eq!(
        gas,
        CirculateGas {
            entity: 3,
            amount: 1,
            proportion_of_oxygen: 300_000,
            proportion_of_nitrogen: 700_000
        }
    );
    assert_eq!(scarce.amount_remaining, 0);
    assert!(scarce.supply_breath(3, &bloodstream_content).is_none());
    assert_eq!(scarce.amount_remaining, 0);
}

#[test]
fn defaults_are_empty_and_mixed_like_air() {
    let cylinder = DivingCylinder::default();
    assert_eq!(
        cylinder,
        DivingCylinder {
            capacity: 0,
            amount_remaining: 0,
            proportion_of_oxygen: 210_000,
            proportion_of_nitrogen: 780_000
        }
    );
    let bloodstream_content = BloodstreamContent::default();
    assert_eq!(
        bloodstream_content,
        BloodstreamContent {
            capacity: 0,
            amount_remaining: 0,
            proportion_of_oxygen: 210_000,
            proportion_of_nitrogen: 780_000
        }
    );
    assert!(cylinder.is_well_formed());
    assert!(bloodstream_content.is_well_formed());
}

#[test]
fn well_formedness_is_checked() {
    let overfull = BloodstreamContent {
        capacity: 1,
        amount_remaining: 2,
        proportion_of_oxygen: 0,
        proportion_of_nitrogen: 0,
    };
    assert!(!overfull.is_well_formed());
    let too_rich = DivingCylinder {
        capacity: 1,
        amount_remaining: 1,
        proportion_of_oxygen: UNIT + 1,
        proportion_of_nitrogen: 0,
    };
    assert!(!too_rich.is_well_formed());
    let too_dull = DivingCylinder {
        capacity: 1,
        amount_remaining: 1,
        proportion_of_oxygen: 0,
        proportion_of_nitrogen: UNIT + 1,
    };
    assert!(!too_dull.is_well_formed());
    let fine = DivingCylinder {
        capacity: 1,
        amount_remaining: 1,
        proportion_of_oxygen: UNIT,
        proportion_of_nitrogen: UNIT,
    };
    assert!(fine.is_well_formed());
    assert!(!CirculateGas {
        entity: 0,
        amount: 0,
        proportion_of_oxygen: UNIT + 1,
        proportion_of_nitrogen: 0
    }
    .is_well_formed());
    assert!(CirculateGas { entity: 0, amount: 0, proportion_of_oxygen: UNIT, proportion_of_nitrogen: 0 }
        .is_well_formed());
}
