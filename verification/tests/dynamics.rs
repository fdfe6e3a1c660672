use astro_tfc::integration::{
    dp87_coupling_row, dp87_nodes, dp87_weights7, dp87_weights8, Ratio, DP87_STAGES,
};
use astro_tfc::manifold::{ManifoldType, Realm};
use astro_tfc::tfc::{coefficients_hash, CacheTag, ChebyshevBasis};

fn value(r: &Ratio) -> f64 {
    r.num as f64 / r.den as f64
}

#[test]
fn test_table_consistency() {
    let b8 = dp87_weights8();
    let c = dp87_nodes();
    let sum_b8: f64 = b8.iter().map(value).sum();
    assert!((sum_b8 - 1.0).abs() < 1e-14, "ΣB8 = {:.15}", sum_b8);
    for i in 0..DP87_STAGES {
        let sum_a: f64 = dp87_coupling_row(i).iter().map(value).sum();
        let ci = value(&c[i]);
        assert!((ci - sum_a).abs() < 1e-14, "Fila {}: c={}, Σa={}", i, ci, sum_a);
    }
}

#[test]
fn seventh_order_weights_sum_to_one() {
    let sum_b7: f64 = dp87_weights7().iter().map(value).sum();
    assert!((sum_b7 - 1.0).abs() < 1e-14);
}

#[test]
fn tableau_is_explicit() {
    for i in 0..DP87_STAGES {
        let row = dp87_coupling_row(i);
        assert_eq!(row.len(), DP87_STAGES);
        for (j, r) in row.iter().enumerate() {
            if j >= i {
                assert_eq!(r.num, 0);
            }
            assert!(r.den > 0);
        }
    }
}

#[test]
fn tableau_known_coefficients() {
    let c = dp87_nodes();
    assert_eq!(c[1], Ratio { num: 1, den: 18 });
    assert_eq!(c[8], Ratio { num: 5490023248, den: 9719169821 });
    assert_eq!(c[12], Ratio { num: 1, den: 1 });
    assert_eq!(dp87_coupling_row(4)[2], Ratio { num: -75, den: 64 });
    assert_eq!(dp87_coupling_row(9)[3], Ratio { num: -37695042795, den: 15268766246 });
    assert_eq!(dp87_weights8()[12], Ratio { num: 1, den: 4 });
    assert_eq!(dp87_weights7()[11], Ratio { num: 2, den: 45 });
    assert_eq!(dp87_weights7()[12], Ratio { num: 0, den: 1 });
}

#[test]
fn first_six_rows_sum_exactly() {
    let c = dp87_nodes();
    for i in 0..6 {
        let row = dp87_coupling_row(i);
        let mut num: i128 = 0;
        let mut den: i128 = 1;
        for r in row.iter() {
            num = num * r.den as i128 + r.num as i128 * den;
            den *= r.den as i128;
        }
        assert_eq!(num * c[i].den as i128, c[i].num as i128 * den);
    }
}

#[test]
fn manifold_time_directions() {
    assert_eq!(ManifoldType::Stable.time_direction(), -1);
    assert_eq!(ManifoldType::Unstable.time_direction(), 1);
    assert_eq!(ManifoldType::TransitToMoon.time_direction(), 1);
    assert_eq!(ManifoldType::TransitToEarth.time_direction(), -1);
}

#[test]
fn transits_start_on_their_side_of_l1() {
    assert_eq!(ManifoldType::TransitToMoon.required_realm(), Some(Realm::Lunar));
    assert_eq!(ManifoldType::TransitToEarth.required_realm(), Some(Realm::Terrestrial));
    assert_eq!(ManifoldType::Stable.required_realm(), None);
    assert_eq!(ManifoldType::Unstable.required_realm(), None);
}

#[test]
fn chebyshev_basis_keeps_its_order() {
    assert_eq!(ChebyshevBasis::new(10).order, 10);
}

#[test]
fn coefficient_hash_values() {
    assert_eq!(coefficients_hash(&vec![]), 0);
    assert_eq!(coefficients_hash(&vec![5]), 5);
    assert_eq!(coefficients_hash(&vec![1, 2, 3]), 1 * 31 * 31 + 2 * 31 + 3);
    assert_eq!(coefficients_hash(&vec![u64::MAX, 1]), u64::MAX.wrapping_mul(31).wrapping_add(1));
    let bits: Vec<u64> = [0.1f64, 0.2, 0.3].iter().map(|c| c.to_bits()).collect();
    let expected = [0.1f64, 0.2, 0.3]
        .iter()
        .fold(0u64, |h, c| h.wrapping_mul(31).wrapping_add(c.to_bits()));
    assert_eq!(coefficients_hash(&bits), expected);
}

#[test]
fn cache_tag_serves_only_the_recorded_coefficients() {
    let mut tag = CacheTag::new();
    assert!(!tag.is_fresh(&vec![]));
    tag.record(&vec![7, 8]);
    assert!(tag.is_fresh(&vec![7, 8]));
    assert!(!tag.is_fresh(&vec![7, 9]));
    assert!(!tag.is_fresh(&vec![7]));
    tag.invalidate();
    assert!(!tag.is_fresh(&vec![7, 8]));
}

#[test]
fn cache_tag_tells_apart_vectors_with_equal_fingerprints() {
    let one = vec![1.0f64.to_bits()];
    let padded = vec![0.0f64.to_bits(), 1.0f64.to_bits()];
    assert_eq!(coefficients_hash(&one), coefficients_hash(&padded));
    let mut tag = CacheTag::new();
    tag.record(&one);
    assert!(tag.is_fresh(&one));
    assert!(!tag.is_fresh(&padded));
}
