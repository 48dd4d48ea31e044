use fourier_coefficients::harmonics::HarmonicRange;
use fourier_coefficients::input::validate_input;
use fourier_coefficients::result::ResultSet;
use fourier_coefficients::samples::{close_period, segment_count};

#[test]
fn assembled_result_hands_its_parts_back() {
    let range = HarmonicRange::new(2, 4).unwrap();
    let r = ResultSet::assemble(range, 0.5f64, vec![1.0, 2.0, 3.0], vec![-1.0, -2.0, -3.0]).unwrap();
    assert_eq!(r.range(), range);
    assert_eq!(r.len(), 3);
    assert_eq!(*r.a_0(), 0.5);
    assert_eq!(*r.a_n(), vec![1.0, 2.0, 3.0]);
    assert_eq!(*r.b_n(), vec![-1.0, -2.0, -3.0]);
}

#[test]
fn coefficients_are_found_by_harmonic_order() {
    let range = HarmonicRange::new(2, 4).unwrap();
    let r = ResultSet::assemble(range, 0.5f64, vec![1.0, 2.0, 3.0], vec![-1.0, -2.0, -3.0]).unwrap();
    assert_eq!(r.a(2), Some(&1.0));
    assert_eq!(r.a(3), Some(&2.0));
    assert_eq!(r.a(4), Some(&3.0));
    assert_eq!(r.b(2), Some(&-1.0));
    assert_eq!(r.b(3), Some(&-2.0));
    assert_eq!(r.b(4), Some(&-3.0));
}

#[test]
fn orders_outside_the_range_have_no_coefficient() {
    let range = HarmonicRange::new(2, 4).unwrap();
    let r = ResultSet::assemble(range, 0.5f64, vec![1.0, 2.0, 3.0], vec![-1.0, -2.0, -3.0]).unwrap();
    assert_eq!(r.a(0), None);
    assert_eq!(r.a(1), None);
    assert_eq!(r.a(5), None);
    assert_eq!(r.b(1), None);
    assert_eq!(r.b(5), None);
    assert_eq!(r.b(usize::MAX), None);
}

#[test]
fn sequences_of_another_length_give_no_result() {
    let range = HarmonicRange::new(2, 4).unwrap();
    assert!(ResultSet::assemble(range, 0.0f64, vec![1.0, 2.0], vec![1.0, 2.0, 3.0]).is_none());
    assert!(ResultSet::assemble(range, 0.0f64, vec![1.0, 2.0, 3.0], vec![1.0, 2.0]).is_none());
    assert!(ResultSet::assemble(range, 0.0f64, Vec::new(), Vec::new()).is_none());
    assert!(
        ResultSet::assemble(range, 0.0f64, vec![1.0, 2.0, 3.0, 4.0], vec![1.0, 2.0, 3.0, 4.0])
            .is_none()
    );
}

#[test]
fn element_at_place_is_the_coefficient_of_its_order() {
    let range = HarmonicRange::new(5, 9).unwrap();
    let a: Vec<u32> = vec![50, 60, 70, 80, 90];
    let b: Vec<u32> = vec![51, 61, 71, 81, 91];
    let r = ResultSet::assemble(range, 0u32, a, b).unwrap();
    assert_eq!(r.a_n().len(), 9 - 5 + 1);
    assert_eq!(r.b_n().len(), 9 - 5 + 1);
    for n in 5..=9usize {
        assert_eq!(r.a(n), Some(&r.a_n()[n - 5]));
        assert_eq!(r.b(n), Some(&r.b_n()[n - 5]));
    }
}

#[test]
fn four_samples_and_the_first_harmonic() {
    let samples: Vec<f64> = vec![0.0, 1.0, 0.0, -1.0];
    let mut bits: Vec<u64> = Vec::new();
    for v in &samples {
        bits.push(v.to_bits());
    }
    let range = validate_input(&bits, Some(1), 1).unwrap();
    assert_eq!(range.n_min(), 1);
    assert_eq!(range.n_max(), 1);
    assert_eq!(range.len(), 1);
    assert_eq!(range.position(1), Some(0));
    let closed = close_period(&samples).unwrap();
    assert_eq!(closed, vec![0.0, 1.0, 0.0, -1.0, 0.0]);
    assert_eq!(segment_count(closed.len()), Ok(4));
}
