use std::f32::consts::PI;

use windmill::{spin_terms, Rate, SpinTerms, PRIMARY_VANES};

fn factor(rate: Rate) -> f32 {
    match rate {
        Rate::Full => 1.0,
        Rate::Half => 0.5,
    }
}

/// Spin of the vane at place `index` after `seconds` at one eighth of a
/// revolution per second.
fn spin_at(index: usize, seconds: f32) -> f32 {
    let base = seconds * 0.125 * 2.0 * PI;
    let terms = spin_terms(index);
    base * factor(terms.rate) + terms.phase as f32
}

#[test]
fn primary_group_is_one_windmill() {
    assert_eq!(PRIMARY_VANES, 3);
}

#[test]
fn primary_vanes_spin_at_the_full_rate() {
    for index in 0..3 {
        assert_eq!(spin_terms(index), SpinTerms { rate: Rate::Full, phase: index });
    }
}

#[test]
fn later_vanes_spin_at_half_the_rate() {
    for index in [3usize, 4, 5, 6, 100, usize::MAX] {
        assert_eq!(spin_terms(index), SpinTerms { rate: Rate::Half, phase: index });
    }
}

#[test]
fn three_vanes_at_time_zero_have_spins_0_1_2() {
    let spins: Vec<f32> = (0..3).map(|i| spin_at(i, 0.0)).collect();
    assert_eq!(spins, vec![0.0, 1.0, 2.0]);
}

#[test]
fn six_vanes_after_four_seconds() {
    let spins: Vec<f32> = (0..6).map(|i| spin_at(i, 4.0)).collect();
    let half_turn = 4.0 * 0.125 * 2.0 * PI;
    assert_eq!(half_turn, PI);
    assert_eq!(
        spins,
        vec![PI, PI + 1.0, PI + 2.0, PI * 0.5 + 3.0, PI * 0.5 + 4.0, PI * 0.5 + 5.0]
    );
}
