use creature_colony::types::blend;
use creature_colony::types::calculate_dimension_update;
use creature_colony::types::DimensionalPosition;
use creature_colony::types::DimensionalState;

#[test]
fn merge_applies_full_impact_at_unit_stability() {
    // stability 1 -> factor 100 -> impact * 100 / 100 == impact
    assert_eq!(calculate_dimension_update(0, 50, 1), 50);
    assert_eq!(calculate_dimension_update(10, -30, 1), -20);
}

#[test]
fn merge_zero_stability_behaves_like_full_stability() {
    // stability 0 falls back to factor 1, exactly as stability 100 yields
    assert_eq!(calculate_dimension_update(0, 50, 0), 0);
    assert_eq!(calculate_dimension_update(0, 50, 100), 0);
    assert_eq!(calculate_dimension_update(20, 150, 0), 21);
    assert_eq!(calculate_dimension_update(20, 150, 100), 21);
    // with no impact, stability 0 and stability 1 agree as well
    assert_eq!(
        calculate_dimension_update(37, 0, 0),
        calculate_dimension_update(37, 0, 1)
    );
}

#[test]
fn merge_rounds_toward_negative_infinity() {
    // the scaled impact uses floor division: -50 / 100 floors to -1
    assert_eq!(calculate_dimension_update(0, -50, 0), -1);
    assert_eq!(calculate_dimension_update(0, -50, 100), -1);
    assert_eq!(calculate_dimension_update(0, 50, 0), 0);
    assert_eq!(calculate_dimension_update(10, -130, 100), 8);
}

#[test]
fn merge_scales_by_stability_factor() {
    // stability 5 -> factor 20 -> 200 * 20 / 100 == 40
    assert_eq!(calculate_dimension_update(0, 200, 5), 40);
    assert_eq!(calculate_dimension_update(0, -200, 5), -40);
    assert_eq!(calculate_dimension_update(90, 200, 5), 100);
}

#[test]
fn merge_clamps_to_bounds() {
    assert_eq!(calculate_dimension_update(-90, -200, 5), -100);
    assert_eq!(calculate_dimension_update(100, 100, 1), 100);
    assert_eq!(calculate_dimension_update(120, 0, 1), 100);
    assert_eq!(calculate_dimension_update(-120, 0, 1), -100);
}

#[test]
fn merge_falls_back_on_overflow() {
    // the scaled impact overflows the signed range, then the sum overflows
    // too: the result falls back to the (clamped) current value
    assert_eq!(calculate_dimension_update(50, i64::MAX, 1), 50);
    assert_eq!(calculate_dimension_update(-50, i64::MIN, 1), -50);
}

#[test]
fn merge_output_always_in_range() {
    let mut k: i64 = -5;
    while k < 5 {
        let current = k * 37;
        let impact = k * 911;
        let r = calculate_dimension_update(current, impact, (k.unsigned_abs() % 7) as u64);
        assert!((-100..=100).contains(&r));
        k += 1;
    }
}

#[test]
fn merge_iteration_never_drifts() {
    // a vector built purely from merge updates stays in range forever
    let mut v: i64 = 37;
    let mut k: i64 = 0;
    while k < 1000 {
        v = calculate_dimension_update(v, (k * 13) % 301 - 150, (k % 7) as u64);
        assert!((-100..=100).contains(&v));
        k += 1;
    }
}

#[test]
fn blend_exact_values() {
    assert_eq!(blend(-3, 0), -1);
    assert_eq!(blend(3, 0), 1);
    assert_eq!(blend(100, 100), 100);
    assert_eq!(blend(-100, -100), -100);
    assert_eq!(blend(0, 0), 0);
    assert_eq!(blend(60, 30), 45);
}

#[test]
fn blend_is_commutative() {
    let samples: [(i64, i64); 5] = [(-3, 0), (99, -100), (7, 8), (-55, 54), (100, -1)];
    for (a, b) in samples {
        assert_eq!(blend(a, b), blend(b, a));
    }
}

#[test]
fn position_blend_is_valid_and_commutes() {
    let a = DimensionalPosition {
        emergence: 10,
        coherence: -20,
        resilience: 99,
        intelligence: -100,
        efficiency: 0,
        integration: 55,
    };
    let b = DimensionalPosition {
        emergence: -9,
        coherence: 41,
        resilience: 100,
        intelligence: 100,
        efficiency: -1,
        integration: -56,
    };
    let ab = a.calculate_impact(&b).unwrap();
    let ba = b.calculate_impact(&a).unwrap();
    assert!(ab.is_valid());
    assert_eq!(ab, ba);
    assert_eq!(ab.emergence, 0);
    assert_eq!(ab.coherence, 10);
    assert_eq!(ab.resilience, 99);
    assert_eq!(ab.intelligence, 0);
    assert_eq!(ab.efficiency, 0);
    assert_eq!(ab.integration, 0);
}
