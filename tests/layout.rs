use sitk_sys::unity::{is_identity_bits, translation_bits, ONE_BITS};
use sitk_sys::geometry::{adapt_shift_half_units, centre_half_units, check_coordinate_shape};
use sitk_sys::error::TransformError;
use sitk_sys::matrix::{determinant_minor, inverse_cofactor, matrix_entry, param_cell, Cofactor, Entry};

fn matrix_of(p: &[f64; 6]) -> [[f64; 3]; 3] {
    let mut m = [[0.0; 3]; 3];
    for r in 0..3 {
        for c in 0..3 {
            m[r][c] = match matrix_entry(r, c) {
                Entry::Param(i) => p[i],
                Entry::Zero => 0.0,
                Entry::One => 1.0,
            };
        }
    }
    m
}

fn minor(m: &[[f64; 3]; 3], c: Cofactor) -> f64 {
    let d = m[c.top][c.left] * m[c.bottom][c.right] - m[c.top][c.right] * m[c.bottom][c.left];
    if c.negate { -d } else { d }
}

fn inverse(p: &[f64; 6]) -> [f64; 6] {
    let m = matrix_of(p);
    let d = minor(&m, determinant_minor());
    let mut q = [0.0; 6];
    for i in 0..6 {
        q[i] = minor(&m, inverse_cofactor(i)) / d;
    }
    q
}

fn compose(a: &[f64; 6], b: &[f64; 6]) -> [f64; 6] {
    let ma = matrix_of(a);
    let mb = matrix_of(b);
    let mut q = [0.0; 6];
    for i in 0..6 {
        let (r, c) = param_cell(i);
        q[i] = (0..3).map(|k| ma[r][k] * mb[k][c]).sum();
    }
    q
}

#[test]
fn matrix_layout_matches_parameters() {
    let p = [1.0, 2.0, 3.0, 4.0, 5.0, 6.0];
    let m = matrix_of(&p);
    assert_eq!(m, [[1.0, 2.0, 5.0], [3.0, 4.0, 6.0], [0.0, 0.0, 1.0]]);
    for i in 0..6 {
        let (r, c) = param_cell(i);
        assert_eq!(matrix_entry(r, c), Entry::Param(i));
    }
}

#[test]
fn composition_keeps_translation() {
    let a = [1.0, 0.0, 0.0, 1.0, 3.0, -2.0];
    let b = [2.0, 0.0, 0.0, 2.0, 1.0, 1.0];
    assert_eq!(compose(&a, &b), [2.0, 0.0, 0.0, 2.0, 4.0, -1.0]);
    assert_eq!(compose(&b, &a), [2.0, 0.0, 0.0, 2.0, 7.0, -3.0]);
}

#[test]
fn inverse_of_scaling_composes_to_identity() {
    let t = [1.2, 0.0, 0.0, 1.0, 5.0, 7.0];
    let q = inverse(&t);
    let id = [1.0, 0.0, 0.0, 1.0, 0.0, 0.0];
    for r in [compose(&t, &q), compose(&q, &t)] {
        let err: f64 = r.iter().zip(id.iter()).map(|(a, b)| (a - b) * (a - b)).sum();
        assert!(err < 1e-20);
    }
}

#[test]
fn inverse_of_general_map() {
    let t = [1.2, 0.3, -0.4, 0.9, 10.2, -9.5];
    let q = inverse(&t);
    let d = 1.2 * 0.9 - 0.3 * -0.4;
    assert!((q[0] - 0.9 / d).abs() < 1e-12);
    assert!((q[1] + 0.3 / d).abs() < 1e-12);
    assert!((q[2] - 0.4 / d).abs() < 1e-12);
    assert!((q[3] - 1.2 / d).abs() < 1e-12);
    assert!((q[4] - (0.3 * -9.5 - 10.2 * 0.9) / d).abs() < 1e-12);
    assert!((q[5] + (1.2 * -9.5 - 10.2 * -0.4) / d).abs() < 1e-12);
}

#[test]
fn adapt_from_600_800_to_400_600_moves_origin_by_100() {
    let shift = adapt_shift_half_units([600, 800], [400, 600]);
    assert_eq!(shift, [200, 200]);
    let origin = [10.5, 20.25];
    let moved = [origin[0] + shift[0] as f64 / 2.0, origin[1] + shift[1] as f64 / 2.0];
    assert_eq!(moved, [110.5, 120.25]);
}

#[test]
fn adapt_to_a_larger_shape_moves_origin_back() {
    assert_eq!(adapt_shift_half_units([10, 10], [13, 10]), [-3, 0]);
}

#[test]
fn centre_of_a_raster() {
    assert_eq!(centre_half_units([120, 100]), [119, 99]);
    assert_eq!(centre_half_units([0, 1]), [-1, 0]);
}

#[test]
fn coordinates_need_two_columns() {
    assert_eq!(check_coordinate_shape([4, 3]), Err(TransformError::ShapeMismatch));
    assert_eq!(check_coordinate_shape([4, 1]), Err(TransformError::ShapeMismatch));
    assert_eq!(check_coordinate_shape([4, 2]), Ok(()));
    assert_eq!(check_coordinate_shape([0, 2]), Ok(()));
}

#[test]
fn identity_is_recognised_bit_for_bit() {
    assert_eq!(ONE_BITS, 1f64.to_bits());
    assert!(is_identity_bits(&[1f64, 0f64, 0f64, 1f64, 0f64, 0f64].map(f64::to_bits)));
    assert!(is_identity_bits(&translation_bits(0f64.to_bits(), 0f64.to_bits())));
    assert!(!is_identity_bits(&translation_bits(0f64.to_bits(), (-0f64).to_bits())));
    assert!(!is_identity_bits(&translation_bits(1e-300f64.to_bits(), 0f64.to_bits())));
    assert!(!is_identity_bits(&[1.2f64, 0.0, 0.0, 1.0, 0.0, 0.0].map(f64::to_bits)));
    let t = translation_bits(3.5f64.to_bits(), (-2f64).to_bits()).map(f64::from_bits);
    assert_eq!(t, [1.0, 0.0, 0.0, 1.0, 3.5, -2.0]);
}
