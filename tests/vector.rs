use gla::{vec3, Matrix, MatrixOps, Vector3};

const V1: Vector3 = Vector3 { x: 10, y: 10, z: 10 };
const V2: Vector3 = Vector3 { x: 50, y: -10, z: 20 };
const V3: Vector3 = Vector3 { x: 20, y: 20, z: 20 };

#[test]
fn vector3_dot() {
    let result = V1 * V2;
    assert_eq!(result, 600);
}

#[test]
fn vector3_cross() {
    let result = V1.cross(V3);
    assert_eq!(result.x, 0);
    assert_eq!(result.y, 0);
    assert_eq!(result.z, 0);
}

#[test]
fn vector3_add() {
    let result = V1 + V2;
    assert_eq!(result.x, 60);
    assert_eq!(result.y, 0);
    assert_eq!(result.z, 30);
}

#[test]
fn vector3_sub() {
    let result = V1 - V2;
    assert_eq!(result.x, -40);
    assert_eq!(result.y, 20);
    assert_eq!(result.z, -10);
}

#[test]
fn vector3_cross_general() {
    let result = vec3(1, 2, 3).cross(vec3(4, 5, 6));
    assert_eq!((result.x, result.y, result.z), (-3, 6, -3));
}

#[test]
fn cross_is_orthogonal_to_both_operands() {
    let v = vec3(3, -7, 2);
    let w = vec3(-5, 4, 9);
    let c = v.cross(w);
    assert_eq!(v.dot(c), 0);
    assert_eq!(w.dot(c), 0);
}

#[test]
fn vector3_norm_square() {
    assert_eq!(vec3(1, -2, 3).norm_square(), 14);
    assert_eq!(vec3(0, 0, 0).norm_square(), 0);
}

#[test]
fn vector3_scale() {
    let r = V2 * 3;
    assert_eq!((r.x, r.y, r.z), (150, -30, 60));
}

#[test]
fn vector3_entries_follow_components() {
    let mut v = <Vector3 as Matrix<3, 1>>::zeroed();
    assert_eq!((v.x, v.y, v.z), (0, 0, 0));
    v.set_entry(0, 0, 7);
    v.set_entry(1, 0, -8);
    v.set_entry(2, 0, 9);
    assert_eq!((v.x, v.y, v.z), (7, -8, 9));
    assert_eq!(v.get_entry(1, 0), -8);
}

#[test]
fn vector_add_matches_generic_matrix_add() {
    let generic: Vector3 = V1.add::<Vector3, Vector3>(&V2);
    let op = V1 + V2;
    assert_eq!((generic.x, generic.y, generic.z), (op.x, op.y, op.z));
    let generic: Vector3 = V1.sub::<Vector3, Vector3>(&V2);
    let op = V1 - V2;
    assert_eq!((generic.x, generic.y, generic.z), (op.x, op.y, op.z));
}
