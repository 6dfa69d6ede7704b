use gla::{vec3, Matrix, Matrix3x3, MatrixOps, SquareMatrix, Vector3};

fn sample() -> Matrix3x3 {
    Matrix3x3 {
        entries: [[1, 2, 3], [4, 5, 6], [7, 8, 9]],
    }
}

#[test]
fn identity_entries() {
    let m = Matrix3x3::identity();
    assert_eq!(m.get_entry(1, 1), 1);
    assert_eq!(m.get_entry(0, 1), 0);
    assert_eq!(m.entries, [[1, 0, 0], [0, 1, 0], [0, 0, 1]]);
}

#[test]
fn zeroed_is_all_zero() {
    let m = Matrix3x3::zeroed();
    assert_eq!(m.entries, [[0; 3]; 3]);
}

#[test]
fn set_entry_changes_one_entry() {
    let mut m = sample();
    m.set_entry(2, 0, -1);
    assert_eq!(m.entries, [[1, 2, 3], [4, 5, 6], [-1, 8, 9]]);
    assert_eq!(m.get_entry(2, 0), -1);
}

#[test]
fn transpose_swaps_across_diagonal() {
    let t = sample().transpose();
    assert_eq!(t.entries, [[1, 4, 7], [2, 5, 8], [3, 6, 9]]);
}

#[test]
fn transpose_mut_in_place() {
    let mut m = sample();
    m.transpose_mut();
    assert_eq!(m.entries, [[1, 4, 7], [2, 5, 8], [3, 6, 9]]);
}

#[test]
fn transpose_twice_is_identity_map() {
    let m = sample();
    assert_eq!(m.transpose().transpose().entries, m.entries);
}

#[test]
fn transpose_leaves_original() {
    let m = sample();
    let _t = m.transpose();
    assert_eq!(m.entries, [[1, 2, 3], [4, 5, 6], [7, 8, 9]]);
}

#[test]
fn identity_is_left_unit() {
    let m = sample();
    let p: Matrix3x3 = Matrix3x3::identity().mat_mul::<3, Matrix3x3, Matrix3x3>(&m);
    assert_eq!(p.entries, m.entries);
    let v = vec3(4, -5, 6);
    let q: Vector3 = Matrix3x3::identity().mat_mul::<1, Vector3, Vector3>(&v);
    assert_eq!((q.x, q.y, q.z), (4, -5, 6));
}

#[test]
fn mat_mul_exact() {
    let a = sample();
    let b = Matrix3x3 {
        entries: [[0, 0, 2], [0, 1, 0], [0, 3, 0]],
    };
    let p: Matrix3x3 = a.mat_mul::<3, Matrix3x3, Matrix3x3>(&b);
    assert_eq!(p.entries, [[0, 11, 2], [0, 23, 8], [0, 35, 14]]);
    let v: Vector3 = a.mat_mul::<1, Vector3, Vector3>(&vec3(1, 0, -1));
    assert_eq!((v.x, v.y, v.z), (-2, -2, -2));
}

#[test]
fn add_and_sub_exact() {
    let a = sample();
    let b = Matrix3x3 {
        entries: [[0, 0, 2], [0, 1, 0], [0, 3, 0]],
    };
    let s: Matrix3x3 = a.add::<Matrix3x3, Matrix3x3>(&b);
    assert_eq!(s.entries, [[1, 2, 5], [4, 6, 6], [7, 11, 9]]);
    let d: Matrix3x3 = a.sub::<Matrix3x3, Matrix3x3>(&b);
    assert_eq!(d.entries, [[1, 2, 1], [4, 4, 6], [7, 5, 9]]);
}

#[test]
fn add_commutes_and_sub_negates() {
    let a = sample();
    let b = Matrix3x3 {
        entries: [[-3, 0, 2], [9, 1, 0], [0, 3, -4]],
    };
    let ab: Matrix3x3 = a.add::<Matrix3x3, Matrix3x3>(&b);
    let ba: Matrix3x3 = b.add::<Matrix3x3, Matrix3x3>(&a);
    assert_eq!(ab.entries, ba.entries);
    let ab: Matrix3x3 = a.sub::<Matrix3x3, Matrix3x3>(&b);
    let ba: Matrix3x3 = b.sub::<Matrix3x3, Matrix3x3>(&a);
    for i in 0..3 {
        for j in 0..3 {
            assert_eq!(ab.entries[i][j], -ba.entries[i][j]);
        }
    }
}

#[test]
fn result_type_chosen_by_caller() {
    let v = vec3(1, 2, 3);
    let w = vec3(10, 20, 30);
    let s: Vector3 = v.add::<Vector3, Vector3>(&w);
    assert_eq!((s.x, s.y, s.z), (11, 22, 33));
}
