use level_entity::assembly::{assemble, Assembly, SpikeBundle};
use level_entity::error::UnsupportedIdentifier;
use level_entity::hazard::HurtMarker;
use level_entity::identifier::RawIdentifier;
use level_entity::physics::{FixedEntityBundle, Mobility, Point, Shape};

#[test]
fn spike_bundle_holds_all_three_components() {
    let bundle = SpikeBundle::build_from_grid_value(2).expect("the spike value is supported");
    assert_eq!(bundle.fixed_entity_bundle, FixedEntityBundle::build_from_grid_value(2).unwrap());
    assert_eq!(bundle.hurt_marker, HurtMarker);
    assert_eq!(bundle.spike.num_deaths(), 0);
}

#[test]
fn spike_bundle_rejects_every_other_grid_value() {
    for value in [i32::MIN, -1, 0, 1, 3, 5, i32::MAX] {
        assert_eq!(SpikeBundle::build_from_grid_value(value), Err(UnsupportedIdentifier));
    }
}

#[test]
fn grid_value_two_at_load_gives_triangle_and_zero_count() {
    match assemble(RawIdentifier::GridValue(2)) {
        Ok(Assembly::Hazard(bundle)) => {
            assert_eq!(
                bundle.fixed_entity_bundle.shape(),
                Shape::Triangle {
                    p0: Point { x: -4, y: -4 },
                    p1: Point { x: 4, y: -4 },
                    p2: Point { x: 0, y: 4 },
                }
            );
            assert_eq!(bundle.fixed_entity_bundle.mobility(), Mobility::Fixed);
            assert_eq!(bundle.fixed_entity_bundle.membership().bits(), 0x04);
            assert_eq!(bundle.fixed_entity_bundle.filter_mask().bits(), 0x1a);
            assert_eq!(bundle.hurt_marker, HurtMarker);
            assert_eq!(bundle.spike.num_deaths(), 0);
        }
        other => panic!("a spike must be a hazard, got {:?}", other),
    }
}

#[test]
fn two_contacts_on_an_assembled_spike_read_two() {
    let mut bundle = match assemble(RawIdentifier::GridValue(2)) {
        Ok(Assembly::Hazard(bundle)) => bundle,
        other => panic!("a spike must be a hazard, got {:?}", other),
    };
    let descriptor = bundle.fixed_entity_bundle;
    bundle.spike.add_death();
    bundle.spike.add_death();
    assert_eq!(bundle.spike.num_deaths(), 2);
    assert_eq!(bundle.fixed_entity_bundle, descriptor);
}

#[test]
fn red_crystal_gives_rectangle_without_hazard_components() {
    match assemble(RawIdentifier::Name("RedCrystal")) {
        Ok(Assembly::Terrain(bundle)) => {
            assert_eq!(bundle.shape(), Shape::Rectangle { half_width: 4, half_height: 4 });
            assert_eq!(bundle.mobility(), Mobility::Fixed);
            assert_eq!(bundle.membership().bits(), 0x04);
            assert_eq!(bundle.filter_mask().bits(), 0x19);
        }
        other => panic!("a crystal must be plain terrain, got {:?}", other),
    }
}

#[test]
fn named_placements_are_never_hazards() {
    for name in ["RedCrystal", "GreenCrystal"] {
        let assembly = assemble(RawIdentifier::Name(name)).unwrap();
        assert!(matches!(assembly, Assembly::Terrain(_)));
        assert_eq!(
            assembly,
            Assembly::Terrain(FixedEntityBundle::build_from_name(name).unwrap())
        );
    }
}

#[test]
fn grid_value_five_spawns_nothing() {
    assert_eq!(assemble(RawIdentifier::GridValue(5)), Err(UnsupportedIdentifier));
    assert_eq!(SpikeBundle::build_from_grid_value(5), Err(UnsupportedIdentifier));
}

#[test]
fn unsupported_names_spawn_nothing() {
    for name in ["", "Spike", "2", "BlueCrystal", "redCrystal"] {
        assert_eq!(assemble(RawIdentifier::Name(name)), Err(UnsupportedIdentifier));
    }
}

#[test]
fn a_name_that_spells_the_spike_value_is_not_a_grid_value() {
    assert!(assemble(RawIdentifier::Name("2")).is_err());
    assert!(assemble(RawIdentifier::GridValue(2)).is_ok());
}

#[test]
fn assembling_twice_gives_equal_assemblies() {
    assert_eq!(assemble(RawIdentifier::GridValue(2)), assemble(RawIdentifier::GridValue(2)));
    assert_eq!(
        assemble(RawIdentifier::Name("GreenCrystal")),
        assemble(RawIdentifier::Name("GreenCrystal"))
    );
}
