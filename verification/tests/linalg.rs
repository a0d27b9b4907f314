use rubik::linalg::{Matrix, Vector};

fn entries(m: &Matrix) -> [i32; 9] {
    let mut e = [0; 9];
    for r in 1..=3 {
        for c in 1..=3 {
            e[(r - 1) * 3 + c - 1] = m.get(r, c);
        }
    }
    e
}

#[test]
fn vector_new_keeps_components() {
    let v = Vector::new(3, -4, 5);
    assert_eq!(v.x(), 3);
    assert_eq!(v.y(), -4);
    assert_eq!(v.z(), 5);
    assert_eq!(v.as_array(), &[3, -4, 5]);
}

#[test]
fn vector_zeros_is_origin() {
    assert_eq!(Vector::zeros(), Vector::new(0, 0, 0));
}

#[test]
fn vector_components_are_numbered_from_one() {
    let v = Vector::new(7, 8, 9);
    assert_eq!(v.get(1), 7);
    assert_eq!(v.get(2), 8);
    assert_eq!(v.get(3), 9);
    assert_eq!(v[1], 7);
    assert_eq!(v[2], 8);
    assert_eq!(v[3], 9);
}

#[test]
fn vector_set_replaces_one_component() {
    let mut v = Vector::new(7, 8, 9);
    v.set(2, -1);
    assert_eq!(v, Vector::new(7, -1, 9));
    v.set(1, 0);
    v.set(3, 4);
    assert_eq!(v, Vector::new(0, -1, 4));
}

#[test]
fn vector_add_vec_adds_in_place_and_chains() {
    let mut a = Vector::new(1, 2, 3);
    let b = Vector::new(10, -20, 30);
    a.add_vec(&b);
    assert_eq!(a, Vector::new(11, -18, 33));
    a.add_vec(&b).add_vec(&b);
    assert_eq!(a, Vector::new(31, -58, 93));
}

#[test]
fn vector_add_vec_reaches_the_limits() {
    let mut a = Vector::new(i32::MAX - 1, i32::MIN + 1, 0);
    a.add_vec(&Vector::new(1, -1, 0));
    assert_eq!(a, Vector::new(i32::MAX, i32::MIN, 0));
}

#[test]
fn vector_mul_vec_multiplies_component_by_component() {
    let mut a = Vector::new(2, -3, 4);
    a.mul_vec(&Vector::new(5, 6, -7));
    assert_eq!(a, Vector::new(10, -18, -28));
}

#[test]
fn vector_mul_scal_scales_every_component() {
    let mut a = Vector::new(2, -3, 4);
    a.mul_scal(-3);
    assert_eq!(a, Vector::new(-6, 9, -12));
    a.mul_scal(0).mul_scal(5);
    assert_eq!(a, Vector::zeros());
}

#[test]
fn vector_dot_product() {
    let a = Vector::new(1, 2, 3);
    let b = Vector::new(4, -5, 6);
    assert_eq!(a.dot(&b), 12);
    assert_eq!(&a * &b, 12);
}

#[test]
fn vector_dot_product_with_large_terms_that_cancel() {
    let a = Vector::new(65536, 65536, 1);
    let b = Vector::new(65536, -65536, 7);
    assert_eq!(a.dot(&b), 7);
}

#[test]
fn vector_sum_operator() {
    let a = Vector::new(1, 2, 3);
    let b = Vector::new(4, -5, 6);
    assert_eq!(&a + &b, Vector::new(5, -3, 9));
    assert_eq!(a, Vector::new(1, 2, 3));
}

#[test]
fn vector_components_split_along_the_axes() {
    let v = Vector::new(1, -1, 1);
    let c = v.components();
    assert_eq!(c[0], Vector::new(1, 0, 0));
    assert_eq!(c[1], Vector::new(0, -1, 0));
    assert_eq!(c[2], Vector::new(0, 0, 1));
}

#[test]
fn vector_components2_keeps_the_order_of_the_axes() {
    let c = Vector::new(-1, 0, 1).components2();
    assert_eq!(c[0], Vector::new(-1, 0, 0));
    assert_eq!(c[1], Vector::new(0, 0, 1));
    let c = Vector::new(0, 1, -1).components2();
    assert_eq!(c[0], Vector::new(0, 1, 0));
    assert_eq!(c[1], Vector::new(0, 0, -1));
    let c = Vector::new(1, -1, 0).components2();
    assert_eq!(c[0], Vector::new(1, 0, 0));
    assert_eq!(c[1], Vector::new(0, -1, 0));
}

#[test]
fn vector_from_array_and_comparison_with_array() {
    let v = Vector::from(&[1, 0, -1]);
    assert_eq!(v, Vector::new(1, 0, -1));
    assert!(v == [1, 0, -1]);
    assert!(v != [1, 0, 1]);
}

#[test]
fn vector_equality_looks_at_every_component() {
    assert_ne!(Vector::new(1, 2, 3), Vector::new(0, 2, 3));
    assert_ne!(Vector::new(1, 2, 3), Vector::new(1, 0, 3));
    assert_ne!(Vector::new(1, 2, 3), Vector::new(1, 2, 0));
}

#[test]
fn matrix_zeros_and_diag() {
    assert_eq!(entries(&Matrix::zeros()), [0, 0, 0, 0, 0, 0, 0, 0, 0]);
    assert_eq!(entries(&Matrix::diag()), [1, 0, 0, 0, 1, 0, 0, 0, 1]);
}

#[test]
fn matrix_rotation_x_entries() {
    assert_eq!(entries(&Matrix::rotation_x(true)), [1, 0, 0, 0, 0, 1, 0, -1, 0]);
    assert_eq!(entries(&Matrix::rotation_x(false)), [1, 0, 0, 0, 0, -1, 0, 1, 0]);
}

#[test]
fn matrix_rotation_y_entries() {
    assert_eq!(entries(&Matrix::rotation_y(true)), [0, 0, -1, 0, 1, 0, 1, 0, 0]);
    assert_eq!(entries(&Matrix::rotation_y(false)), [0, 0, 1, 0, 1, 0, -1, 0, 0]);
}

#[test]
fn matrix_rotation_z_entries() {
    assert_eq!(entries(&Matrix::rotation_z(true)), [0, 1, 0, -1, 0, 0, 0, 0, 1]);
    assert_eq!(entries(&Matrix::rotation_z(false)), [0, -1, 0, 1, 0, 0, 0, 0, 1]);
}

#[test]
fn matrix_entries_are_numbered_from_one() {
    let mut m = Matrix::zeros();
    let mut n = 0;
    for r in 1..=3 {
        for c in 1..=3 {
            n += 1;
            m.set(r, c, n);
        }
    }
    assert_eq!(entries(&m), [1, 2, 3, 4, 5, 6, 7, 8, 9]);
    assert_eq!(m[(1, 1)], 1);
    assert_eq!(m[(1, 3)], 3);
    assert_eq!(m[(2, 1)], 4);
    assert_eq!(m[(3, 2)], 8);
}

#[test]
fn matrix_times_vector() {
    let mut m = Matrix::zeros();
    let mut n = 0;
    for r in 1..=3 {
        for c in 1..=3 {
            n += 1;
            m.set(r, c, n);
        }
    }
    let v = Vector::new(1, -2, 3);
    assert_eq!(m.mul_vec(&v), Vector::new(6, 12, 18));
    assert_eq!(&m * &v, Vector::new(6, 12, 18));
}

#[test]
fn matrix_times_vector_where_partial_sums_leave_the_range() {
    let mut m = Matrix::zeros();
    m.set(1, 1, 1);
    m.set(1, 2, 1);
    m.set(1, 3, 1);
    let v = Vector::new(i32::MAX, 1, -1);
    assert_eq!(m.mul_vec(&v), Vector::new(i32::MAX, 0, 0));
}

#[test]
fn matrix_times_matrix() {
    let mut a = Matrix::zeros();
    let mut b = Matrix::zeros();
    let mut n = 0;
    for r in 1..=3 {
        for c in 1..=3 {
            n += 1;
            a.set(r, c, n);
            b.set(r, c, 10 - n);
        }
    }
    assert_eq!(entries(&a.mul_mat(&b)), [30, 24, 18, 84, 69, 54, 138, 114, 90]);
    assert_eq!(entries(&(&a * &b)), [30, 24, 18, 84, 69, 54, 138, 114, 90]);
    assert_eq!(entries(&b.mul_mat(&a)), [90, 114, 138, 54, 69, 84, 18, 24, 30]);
}

#[test]
fn matrix_product_with_identity() {
    let r = Matrix::rotation_y(true);
    assert_eq!(r.mul_mat(&Matrix::diag()), r);
    assert_eq!(Matrix::diag().mul_mat(&r), r);
}

#[test]
fn rotations_of_opposite_sense_cancel() {
    for cw in [true, false] {
        assert_eq!(Matrix::rotation_x(cw).mul_mat(&Matrix::rotation_x(!cw)), Matrix::diag());
        assert_eq!(Matrix::rotation_y(cw).mul_mat(&Matrix::rotation_y(!cw)), Matrix::diag());
        assert_eq!(Matrix::rotation_z(cw).mul_mat(&Matrix::rotation_z(!cw)), Matrix::diag());
    }
}

#[test]
fn rotations_have_order_four() {
    for cw in [true, false] {
        for r in [Matrix::rotation_x(cw), Matrix::rotation_y(cw), Matrix::rotation_z(cw)] {
            let r2 = r.mul_mat(&r);
            assert_ne!(r, Matrix::diag());
            assert_ne!(r2, Matrix::diag());
            assert_ne!(r2.mul_mat(&r), Matrix::diag());
            assert_eq!(r2.mul_mat(&r2), Matrix::diag());
        }
    }
}

#[test]
fn rotation_x_turns_the_y_axis() {
    assert_eq!(Matrix::rotation_x(true).mul_vec(&Vector::new(5, 1, 0)), Vector::new(5, 0, -1));
    assert_eq!(Matrix::rotation_x(false).mul_vec(&Vector::new(5, 1, 0)), Vector::new(5, 0, 1));
}

#[test]
fn matrix_equality_looks_at_every_entry() {
    for r in 1..=3 {
        for c in 1..=3 {
            let mut m = Matrix::diag();
            m.set(r, c, 5);
            assert_ne!(m, Matrix::diag());
        }
    }
}
