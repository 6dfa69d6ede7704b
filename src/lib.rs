pub mod matrix;
pub mod vector;

pub use matrix::{Matrix, Matrix3x3, MatrixOps, SquareMatrix};
pub use vector::{vec3, Vector3};
