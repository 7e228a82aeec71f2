use level_entity::error::UnsupportedIdentifier;
use level_entity::hazard::{HurtMarker, Spike};

#[test]
fn new_spike_has_counted_nothing() {
    let spike = Spike::build_from_grid_value(2).expect("the spike value is supported");
    assert_eq!(spike.num_deaths(), 0);
}

#[test]
fn spike_state_rejects_every_other_grid_value() {
    for value in [i32::MIN, -1, 0, 1, 3, 5, i32::MAX] {
        assert_eq!(Spike::build_from_grid_value(value), Err(UnsupportedIdentifier));
    }
}

#[test]
fn two_contacts_on_the_same_spike_count_two() {
    let mut spike = Spike::build_from_grid_value(2).unwrap();
    spike.add_death();
    spike.add_death();
    assert_eq!(spike.num_deaths(), 2);
}

#[test]
fn count_equals_the_number_of_calls() {
    for calls in [0u64, 1, 2, 3, 10, 255, 256, 1000] {
        let mut spike = Spike::build_from_grid_value(2).unwrap();
        for _ in 0..calls {
            spike.add_death();
        }
        assert_eq!(spike.num_deaths(), calls);
    }
}

#[test]
fn count_never_decreases() {
    let mut spike = Spike::build_from_grid_value(2).unwrap();
    let mut before = spike.num_deaths();
    for _ in 0..500 {
        spike.add_death();
        let after = spike.num_deaths();
        assert!(after >= before);
        assert_eq!(after, before + 1);
        before = after;
    }
}

#[test]
fn spikes_count_independently() {
    let mut first = Spike::build_from_grid_value(2).unwrap();
    let second = Spike::build_from_grid_value(2).unwrap();
    first.add_death();
    assert_eq!(first.num_deaths(), 1);
    assert_eq!(second.num_deaths(), 0);
}

#[test]
fn default_spike_has_counted_nothing() {
    assert_eq!(Spike::default().num_deaths(), 0);
    assert_eq!(Spike::default(), Spike::build_from_grid_value(2).unwrap());
}

#[test]
fn hurt_marker_is_a_unit() {
    assert_eq!(HurtMarker::default(), HurtMarker);
    assert_eq!(std::mem::size_of::<HurtMarker>(), 0);
}
