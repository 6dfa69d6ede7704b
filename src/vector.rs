use vstd::prelude::*;

use crate::matrix::{fits_i64, grid, Matrix, MatrixOps};

verus! {

/// A vector of three integer components.
#[derive(Clone, Copy, Debug)]
pub struct Vector3 {
    pub x: i64,
    pub y: i64,
    pub z: i64,
}

impl View for Vector3 {
    type V = (int, int, int);

    open spec fn view(&self) -> (int, int, int) {
        (self.x as int, self.y as int, self.z as int)
    }
}

/// Dot product of two triples.
pub open spec fn dot3(a: (int, int, int), b: (int, int, int)) -> int {
    a.0 * b.0 + a.1 * b.1 + a.2 * b.2
}

/// Cross product of two triples.
pub open spec fn cross3(a: (int, int, int), b: (int, int, int)) -> (int, int, int) {
    (a.1 * b.2 - a.2 * b.1, a.2 * b.0 - a.0 * b.2, a.0 * b.1 - a.1 * b.0)
}

/// Every product and partial sum of the dot product of `a` and `b` fits in an `i64`.
pub open spec fn dot_fits(a: (int, int, int), b: (int, int, int)) -> bool {
    &&& fits_i64(a.0 * b.0)
    &&& fits_i64(a.1 * b.1)
    &&& fits_i64(a.2 * b.2)
    &&& fits_i64(a.0 * b.0 + a.1 * b.1)
    &&& fits_i64(dot3(a, b))
}

/// Every product and component of the cross product of `a` and `b` fits in an `i64`.
pub open spec fn cross_fits(a: (int, int, int), b: (int, int, int)) -> bool {
    &&& fits_i64(a.1 * b.2)
    &&& fits_i64(a.2 * b.1)
    &&& fits_i64(a.2 * b.0)
    &&& fits_i64(a.0 * b.2)
    &&& fits_i64(a.0 * b.1)
    &&& fits_i64(a.1 * b.0)
    &&& fits_i64(cross3(a, b).0)
    &&& fits_i64(cross3(a, b).1)
    &&& fits_i64(cross3(a, b).2)
}

/// Every component of `a` scaled by `s` fits in an `i64`.
pub open spec fn scale_fits(a: (int, int, int), s: int) -> bool {
    fits_i64(a.0 * s) && fits_i64(a.1 * s) && fits_i64(a.2 * s)
}

/// The cross product of two vectors is orthogonal to each of them.
pub proof fn lemma_cross_orthogonal(v: (int, int, int), w: (int, int, int))
    ensures
        dot3(v, cross3(v, w)) == 0,
        dot3(w, cross3(v, w)) == 0,
{
    assert(dot3(v, cross3(v, w)) == 0) by (nonlinear_arith);
    assert(dot3(w, cross3(v, w)) == 0) by (nonlinear_arith);
}

impl Vector3 {
    pub fn new(x: i64, y: i64, z: i64) -> (r: Vector3)
        ensures
            r@ == (x as int, y as int, z as int),
    {
        Vector3 { x, y, z }
    }

    /// The dot product `x1 * x2 + y1 * y2 + z1 * z2`.
    pub fn dot(self, rhs: Vector3) -> (r: i64)
        requires
            dot_fits(self@, rhs@),
        ensures
            r == dot3(self@, rhs@),
    {
        self.x * rhs.x + self.y * rhs.y + self.z * rhs.z
    }

    /// The cross product of `self` and `rhs`.
    pub fn cross(self, rhs: Vector3) -> (r: Vector3)
        requires
            cross_fits(self@, rhs@),
        ensures
            r@ == cross3(self@, rhs@),
    {
        Vector3 {
            x: self.y * rhs.z - self.z * rhs.y,
            y: self.z * rhs.x - self.x * rhs.z,
            z: self.x * rhs.y - self.y * rhs.x,
        }
    }

    /// The square of the Euclidean norm.
    pub fn norm_square(self) -> (r: i64)
        requires
            dot_fits(self@, self@),
        ensures
            r == dot3(self@, self@),
    {
        self.x * self.x + self.y * self.y + self.z * self.z
    }
}

/// Shorthand for `Vector3::new`.
pub fn vec3(x: i64, y: i64, z: i64) -> (r: Vector3)
    ensures
        r@ == (x as int, y as int, z as int),
{
    Vector3::new(x, y, z)
}

/// A vector is a matrix of three rows and one column.
impl Matrix<3, 1> for Vector3 {
    open spec fn entry(&self, i: int, j: int) -> int {
        if i == 0 {
            self.x as int
        } else if i == 1 {
            self.y as int
        } else {
            self.z as int
        }
    }

    fn zeroed() -> (r: Vector3) {
        vec3(0, 0, 0)
    }

    fn get_entry(&self, i: usize, j: usize) -> (r: i64) {
        if i == 0 {
            self.x
        } else if i == 1 {
            self.y
        } else {
            self.z
        }
    }

    fn set_entry(&mut self, i: usize, j: usize, n: i64) {
        if i == 0 {
            self.x = n;
        } else if i == 1 {
            self.y = n;
        } else {
            self.z = n;
        }
    }
}

/// Componentwise sum, computed by the generic matrix sum.
impl core::ops::Add for Vector3 {
    type Output = Vector3;

    fn add(self, rhs: Vector3) -> (r: Vector3) {
        proof {
            assert(grid(&self)[0][0] == self.x && grid(&self)[1][0] == self.y && grid(&self)[2][0]
                == self.z);
            assert(grid(&rhs)[0][0] == rhs.x && grid(&rhs)[1][0] == rhs.y && grid(&rhs)[2][0]
                == rhs.z);
        }
        let r: Vector3 = <Vector3 as MatrixOps<3, 1>>::add::<Vector3, Vector3>(&self, &rhs);
        assert(grid(&r)[0][0] == r.x && grid(&r)[1][0] == r.y && grid(&r)[2][0] == r.z);
        r
    }
}

impl vstd::std_specs::ops::AddSpecImpl for Vector3 {
    open spec fn obeys_add_spec() -> bool {
        true
    }

    open spec fn add_req(self, rhs: Vector3) -> bool {
        fits_i64(self.x + rhs.x) && fits_i64(self.y + rhs.y) && fits_i64(self.z + rhs.z)
    }

    open spec fn add_spec(self, rhs: Vector3) -> Vector3 {
        Vector3 {
            x: (self.x + rhs.x) as i64,
            y: (self.y + rhs.y) as i64,
            z: (self.z + rhs.z) as i64,
        }
    }
}

/// Componentwise difference, computed by the generic matrix difference.
impl core::ops::Sub for Vector3 {
    type Output = Vector3;

    fn sub(self, rhs: Vector3) -> (r: Vector3) {
        proof {
            assert(grid(&self)[0][0] == self.x && grid(&self)[1][0] == self.y && grid(&self)[2][0]
                == self.z);
            assert(grid(&rhs)[0][0] == rhs.x && grid(&rhs)[1][0] == rhs.y && grid(&rhs)[2][0]
                == rhs.z);
        }
        let r: Vector3 = <Vector3 as MatrixOps<3, 1>>::sub::<Vector3, Vector3>(&self, &rhs);
        assert(grid(&r)[0][0] == r.x && grid(&r)[1][0] == r.y && grid(&r)[2][0] == r.z);
        r
    }
}

impl vstd::std_specs::ops::SubSpecImpl for Vector3 {
    open spec fn obeys_sub_spec() -> bool {
        true
    }

    open spec fn sub_req(self, rhs: Vector3) -> bool {
        fits_i64(self.x - rhs.x) && fits_i64(self.y - rhs.y) && fits_i64(self.z - rhs.z)
    }

    open spec fn sub_spec(self, rhs: Vector3) -> Vector3 {
        Vector3 {
            x: (self.x - rhs.x) as i64,
            y: (self.y - rhs.y) as i64,
            z: (self.z - rhs.z) as i64,
        }
    }
}

/// `v * w` is the dot product.
impl core::ops::Mul for Vector3 {
    type Output = i64;

    fn mul(self, rhs: Vector3) -> (r: i64) {
        self.dot(rhs)
    }
}

impl vstd::std_specs::ops::MulSpecImpl for Vector3 {
    open spec fn obeys_mul_spec() -> bool {
        true
    }

    open spec fn mul_req(self, rhs: Vector3) -> bool {
        dot_fits(self@, rhs@)
    }

    open spec fn mul_spec(self, rhs: Vector3) -> i64 {
        dot3(self@, rhs@) as i64
    }
}

/// `v * s` scales each component by `s`.
impl core::ops::Mul<i64> for Vector3 {
    type Output = Vector3;

    fn mul(self, rhs: i64) -> (r: Vector3) {
        Vector3 { x: self.x * rhs, y: self.y * rhs, z: self.z * rhs }
    }
}

impl vstd::std_specs::ops::MulSpecImpl<i64> for Vector3 {
    open spec fn obeys_mul_spec() -> bool {
        true
    }

    open spec fn mul_req(self, rhs: i64) -> bool {
        scale_fits(self@, rhs as int)
    }

    open spec fn mul_spec(self, rhs: i64) -> Vector3 {
        Vector3 {
            x: (self.x * rhs) as i64,
            y: (self.y * rhs) as i64,
            z: (self.z * rhs) as i64,
        }
    }
}

} // verus!
