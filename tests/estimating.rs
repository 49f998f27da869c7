use wavespec::config::RangeSeed;
use wavespec::normalize::normalize_data;
use wavespec::spectrum::{parity_aggregate_amplitude, phase_indices};

#[test]
fn extremes_map_to_unit_bounds() {
    let d = [-5, 3, 11, 0];
    let s = normalize_data(&d, RangeSeed::FirstSample);
    assert_eq!(s.denominator, 16);
    assert_eq!(s.numerators, vec![-16, 0, 16, -6]);
    for &n in &s.numerators {
        assert!(-s.denominator <= n && n <= s.denominator);
    }
}

#[test]
fn zero_seeded_range_includes_zero() {
    let d = [2, 6];
    let s = normalize_data(&d, RangeSeed::Zero);
    assert_eq!(s.denominator, 6);
    assert_eq!(s.numerators, vec![-2, 6]);
    let t = normalize_data(&d, RangeSeed::FirstSample);
    assert_eq!(t.denominator, 4);
    assert_eq!(t.numerators, vec![-4, 4]);
}

#[test]
fn degenerate_range_maps_to_zero() {
    let s = normalize_data(&[7, 7, 7], RangeSeed::FirstSample);
    assert_eq!(s.denominator, 1);
    assert_eq!(s.numerators, vec![0, 0, 0]);
    let z = normalize_data(&[0, 0], RangeSeed::Zero);
    assert_eq!(z.denominator, 1);
    assert_eq!(z.numerators, vec![0, 0]);
    let e = normalize_data(&[], RangeSeed::Zero);
    assert_eq!(e.denominator, 1);
    assert!(e.numerators.is_empty());
}

#[test]
fn full_range_of_samples() {
    let d = [i32::MIN, i32::MAX];
    let s = normalize_data(&d, RangeSeed::Zero);
    assert_eq!(s.denominator, 4294967295);
    assert_eq!(s.numerators, vec![-4294967295, 4294967295]);
}

#[test]
fn parity_aggregate_sums_magnitudes() {
    assert_eq!(parity_aggregate_amplitude(0, &[]), 0);
    assert_eq!(parity_aggregate_amplitude(3, &[-9]), 9);
    assert_eq!(parity_aggregate_amplitude(1, &[3, -4, 5]), 12);
    assert_eq!(parity_aggregate_amplitude(7, &[3, -4, 5]), 12);
    assert_eq!(parity_aggregate_amplitude(2, &[1, -2, 3, -4, 5, -6, 7]), 28);
    assert_eq!(parity_aggregate_amplitude(0, &[i64::MIN, i64::MIN]), 1u128 << 64);
}

#[test]
fn phases_of_direct_form() {
    assert_eq!(phase_indices(0, 5), vec![0, 0, 0, 0, 0]);
    assert_eq!(phase_indices(2, 5), vec![0, 2, 4, 1, 3]);
    assert_eq!(phase_indices(7, 4), vec![0, 3, 2, 1]);
    assert_eq!(phase_indices(3, 0), Vec::<usize>::new());
    assert_eq!(phase_indices(usize::MAX, 3), vec![0, 0, 0]);
}
