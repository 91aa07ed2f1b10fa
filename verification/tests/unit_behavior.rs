use amplitude_scale_offset::unit::RangeMapper;

fn set(u: &mut RangeMapper, key: &str, v: f64) {
    u.set_input_value(key, v.to_bits());
}

fn tick(u: &mut RangeMapper) {
    u.process_tick(0, (0.001f64).to_bits());
}

fn out(u: &RangeMapper, key: &str) -> f64 {
    f64::from_bits(u.get_output_value(key))
}

fn internal(u: &RangeMapper, key: &str) -> Option<f64> {
    u.get_internal_value(key).map(f64::from_bits)
}

fn outputs(u: &RangeMapper) -> (f64, f64, f64, f64) {
    (
        out(u, "Scale 1-2"),
        out(u, "Offset 1-2"),
        out(u, "Scale 2-1"),
        out(u, "Offset 2-1"),
    )
}

#[test]
fn fresh_unit_reads_all_zero() {
    let u = RangeMapper::default();
    for name in ["min1", "max1", "min2", "max2", "s12", "o12", "s21", "o21"] {
        assert_eq!(internal(&u, name), Some(0.0));
    }
    assert_eq!(outputs(&u), (0.0, 0.0, 0.0, 0.0));
}

#[test]
fn nan_input_is_sanitized_and_falls_back_to_identity() {
    let mut u = RangeMapper::default();
    set(&mut u, "Min 1 (V)", f64::NAN);
    assert_eq!(internal(&u, "min1"), Some(0.0));
    tick(&mut u);
    assert_eq!(outputs(&u), (1.0, 0.0, 1.0, 0.0));
}

#[test]
fn infinite_inputs_are_sanitized_to_zero() {
    let mut u = RangeMapper::default();
    set(&mut u, "Max 1 (V)", f64::INFINITY);
    set(&mut u, "Min 2 (V)", f64::NEG_INFINITY);
    set(&mut u, "Max 2 (V)", -3.5);
    assert_eq!(internal(&u, "max1"), Some(0.0));
    assert_eq!(internal(&u, "min2"), Some(0.0));
    assert_eq!(internal(&u, "max2"), Some(-3.5));
    tick(&mut u);
    assert_eq!(outputs(&u), (1.0, 0.0, 1.0, 0.0));
}

#[test]
fn degeneracy_threshold_forces_identity() {
    let mut u = RangeMapper::default();
    set(&mut u, "Min 1 (V)", 0.0);
    set(&mut u, "Max 1 (V)", 1e-16);
    set(&mut u, "Min 2 (V)", 0.0);
    set(&mut u, "Max 2 (V)", 5.0);
    tick(&mut u);
    assert_eq!(outputs(&u), (1.0, 0.0, 1.0, 0.0));
}

#[test]
fn equal_bounds_force_identity() {
    let mut u = RangeMapper::default();
    set(&mut u, "Min 1 (V)", 2.0);
    set(&mut u, "Max 1 (V)", 2.0);
    set(&mut u, "Min 2 (V)", 0.0);
    set(&mut u, "Max 2 (V)", 5.0);
    tick(&mut u);
    assert_eq!(outputs(&u), (1.0, 0.0, 1.0, 0.0));
}

#[test]
fn round_trip_coefficients_are_exact() {
    let mut u = RangeMapper::default();
    set(&mut u, "Min 1 (V)", 0.0);
    set(&mut u, "Max 1 (V)", 10.0);
    set(&mut u, "Min 2 (V)", 2.0);
    set(&mut u, "Max 2 (V)", 12.0);
    tick(&mut u);
    let (s12, o12, s21, o21) = outputs(&u);
    assert_eq!((s12, o12, s21, o21), (1.0, 2.0, 1.0, -2.0));
    assert_eq!(0.0 * s12 + o12, 2.0);
    assert_eq!(10.0 * s12 + o12, 12.0);
    assert_eq!(2.0 * s21 + o21, 0.0);
    assert_eq!(12.0 * s21 + o21, 10.0);
}

#[test]
fn asymmetric_ranges_give_reciprocal_scales() {
    let mut u = RangeMapper::default();
    set(&mut u, "Min 1 (V)", 0.0);
    set(&mut u, "Max 1 (V)", 1.0);
    set(&mut u, "Min 2 (V)", 0.0);
    set(&mut u, "Max 2 (V)", 100.0);
    tick(&mut u);
    assert_eq!(outputs(&u), (100.0, 0.0, 0.01, 0.0));
}

#[test]
fn mixed_bounds_give_exact_affine_coefficients() {
    let mut u = RangeMapper::default();
    set(&mut u, "Min 1 (V)", 1.0);
    set(&mut u, "Max 1 (V)", 3.0);
    set(&mut u, "Min 2 (V)", 5.0);
    set(&mut u, "Max 2 (V)", 9.0);
    tick(&mut u);
    assert_eq!(outputs(&u), (2.0, 3.0, 0.5, -1.5));
}

#[test]
fn huge_scale_is_clamped_to_bound() {
    let mut u = RangeMapper::default();
    set(&mut u, "Min 1 (V)", 0.0);
    set(&mut u, "Max 1 (V)", 1e-10);
    set(&mut u, "Min 2 (V)", 0.0);
    set(&mut u, "Max 2 (V)", 1.0);
    tick(&mut u);
    assert_eq!(out(&u, "Scale 1-2"), 1e6);
    assert_eq!(out(&u, "Scale 2-1"), 1e-10);
}

#[test]
fn negative_huge_scale_is_clamped_to_negative_bound() {
    let mut u = RangeMapper::default();
    set(&mut u, "Min 1 (V)", 0.0);
    set(&mut u, "Max 1 (V)", 1e-10);
    set(&mut u, "Min 2 (V)", 1.0);
    set(&mut u, "Max 2 (V)", 0.0);
    tick(&mut u);
    assert_eq!(out(&u, "Scale 1-2"), -1e6);
}

#[test]
fn huge_offsets_are_clamped_to_bounds() {
    let mut u = RangeMapper::default();
    set(&mut u, "Min 1 (V)", 0.0);
    set(&mut u, "Max 1 (V)", 1.0);
    set(&mut u, "Min 2 (V)", 2e6);
    set(&mut u, "Max 2 (V)", 2000001.0);
    tick(&mut u);
    assert_eq!(outputs(&u), (1.0, 1e6, 1.0, -1e6));
}

#[test]
fn unknown_names_are_ignored_on_every_path() {
    let mut u = RangeMapper::default();
    set(&mut u, "Min 1 (V)", 4.0);
    set(&mut u, "Max 1 (V)", 8.0);
    set(&mut u, "Min 2 (V)", 1.0);
    set(&mut u, "Max 2 (V)", 2.0);
    tick(&mut u);
    let before: Vec<Option<f64>> = ["min1", "max1", "min2", "max2", "s12", "o12", "s21", "o21"]
        .iter()
        .map(|n| internal(&u, n))
        .collect();
    set(&mut u, "nonexistent", 123.0);
    let after: Vec<Option<f64>> = ["min1", "max1", "min2", "max2", "s12", "o12", "s21", "o21"]
        .iter()
        .map(|n| internal(&u, n))
        .collect();
    assert_eq!(before, after);
    assert_eq!(internal(&u, "nonexistent"), None);
    assert_eq!(out(&u, "nonexistent"), 0.0);
}

#[test]
fn repeated_ticks_are_idempotent() {
    let mut u = RangeMapper::default();
    set(&mut u, "Min 1 (V)", -2.5);
    set(&mut u, "Max 1 (V)", 7.5);
    set(&mut u, "Min 2 (V)", 0.25);
    set(&mut u, "Max 2 (V)", 4.25);
    u.process_tick(1, (0.001f64).to_bits());
    let first = outputs(&u);
    u.process_tick(2, (0.5f64).to_bits());
    let second = outputs(&u);
    assert_eq!(first, second);
    let inputs: Vec<Option<f64>> = ["min1", "max1", "min2", "max2"]
        .iter()
        .map(|n| internal(&u, n))
        .collect();
    assert_eq!(inputs, vec![Some(-2.5), Some(7.5), Some(0.25), Some(4.25)]);
}

#[test]
fn tick_does_not_run_on_assignment() {
    let mut u = RangeMapper::default();
    set(&mut u, "Min 1 (V)", 0.0);
    set(&mut u, "Max 1 (V)", 1.0);
    set(&mut u, "Min 2 (V)", 0.0);
    set(&mut u, "Max 2 (V)", 100.0);
    assert_eq!(outputs(&u), (0.0, 0.0, 0.0, 0.0));
    tick(&mut u);
    assert_eq!(out(&u, "Scale 1-2"), 100.0);
}
