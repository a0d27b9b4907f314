//! Exact integer linear algebra on the lattice Z^3: three-component vectors
//! and 3x3 matrices, with contracts stated over mathematical integers.

use vstd::prelude::*;
use vstd::std_specs::cmp::PartialEqSpecImpl;

verus! {

/// A point (or displacement) of the integer lattice Z^3.
///
/// This is the mathematical model of a [`Vector`]: its components are
/// unbounded integers, so the operations below never overflow.
pub struct Vec3 {
    pub x: int,
    pub y: int,
    pub z: int,
}

impl Vec3 {
    /// The origin.
    pub open spec fn zero() -> Vec3 {
        Vec3 { x: 0, y: 0, z: 0 }
    }

    /// Component-wise sum.
    pub open spec fn plus(self, o: Vec3) -> Vec3 {
        Vec3 { x: self.x + o.x, y: self.y + o.y, z: self.z + o.z }
    }

    /// Component-wise difference.
    pub open spec fn minus(self, o: Vec3) -> Vec3 {
        Vec3 { x: self.x - o.x, y: self.y - o.y, z: self.z - o.z }
    }

    /// Component-wise product.
    pub open spec fn times(self, o: Vec3) -> Vec3 {
        Vec3 { x: self.x * o.x, y: self.y * o.y, z: self.z * o.z }
    }

    /// Every component multiplied by `k`.
    pub open spec fn scaled(self, k: int) -> Vec3 {
        Vec3 { x: self.x * k, y: self.y * k, z: self.z * k }
    }

    /// Dot product.
    pub open spec fn dot(self, o: Vec3) -> int {
        self.x * o.x + self.y * o.y + self.z * o.z
    }

    /// The component with the one-based number `rc`: 1 is x, 2 is y, 3 is z.
    pub open spec fn component(self, rc: int) -> int {
        if rc == 1 {
            self.x
        } else if rc == 2 {
            self.y
        } else {
            self.z
        }
    }

    /// The vector with component number `rc` (one-based) replaced by `value`.
    pub open spec fn with_component(self, rc: int, value: int) -> Vec3 {
        if rc == 1 {
            Vec3 { x: value, ..self }
        } else if rc == 2 {
            Vec3 { y: value, ..self }
        } else {
            Vec3 { z: value, ..self }
        }
    }

    /// The part of the vector that lies along axis number `rc` (one-based).
    pub open spec fn along(self, rc: int) -> Vec3 {
        Vec3::zero().with_component(rc, self.component(rc))
    }

    /// How many components are not zero.
    pub open spec fn support(self) -> int {
        (if self.x != 0 { 1int } else { 0 }) + (if self.y != 0 { 1int } else { 0 })
            + (if self.z != 0 { 1int } else { 0 })
    }

    /// How many of the components with a number below `rc` (one-based) are
    /// not zero.
    pub open spec fn support_below(self, rc: int) -> int {
        (if 1 < rc && self.x != 0 { 1int } else { 0 }) + (if 2 < rc && self.y != 0 { 1int } else { 0 })
            + (if 3 < rc && self.z != 0 { 1int } else { 0 })
    }

    /// The number of the first component that is not zero (3 if there is none).
    pub open spec fn first_axis(self) -> int {
        if self.x != 0 {
            1
        } else if self.y != 0 {
            2
        } else {
            3
        }
    }

    /// The number of the last component that is not zero (1 if there is none).
    pub open spec fn last_axis(self) -> int {
        if self.z != 0 {
            3
        } else if self.y != 0 {
            2
        } else {
            1
        }
    }

    /// Every component is -1, 0 or 1.
    pub open spec fn is_signs(self) -> bool {
        is_sign(self.x) && is_sign(self.y) && is_sign(self.z)
    }

    /// The dot product of a vector of signs with `o`, written without a
    /// multiplication.
    pub open spec fn signed_dot(self, o: Vec3) -> int {
        signed(self.x, o.x) + signed(self.y, o.y) + signed(self.z, o.z)
    }

    /// Every component can be held in an `i32`.
    pub open spec fn fits(self) -> bool {
        &&& i32::MIN <= self.x <= i32::MAX
        &&& i32::MIN <= self.y <= i32::MAX
        &&& i32::MIN <= self.z <= i32::MAX
    }
}

/// `s` is one of -1, 0 and 1.
pub open spec fn is_sign(s: int) -> bool {
    s == -1 || s == 0 || s == 1
}

/// The product `s * t` for a sign `s`, written without a multiplication.
pub open spec fn signed(s: int, t: int) -> int {
    if s == 0 {
        0
    } else if s == 1 {
        t
    } else {
        -t
    }
}

/// A 3x3 integer matrix, given by its rows.
///
/// This is the mathematical model of a [`Matrix`].
pub struct Mat3 {
    pub r1: Vec3,
    pub r2: Vec3,
    pub r3: Vec3,
}

impl Mat3 {
    /// The matrix of zeros.
    pub open spec fn zero() -> Mat3 {
        Mat3 { r1: Vec3::zero(), r2: Vec3::zero(), r3: Vec3::zero() }
    }

    /// The identity matrix.
    pub open spec fn identity() -> Mat3 {
        Mat3 {
            r1: Vec3 { x: 1, y: 0, z: 0 },
            r2: Vec3 { x: 0, y: 1, z: 0 },
            r3: Vec3 { x: 0, y: 0, z: 1 },
        }
    }

    /// Row number `r` (one-based).
    pub open spec fn row(self, r: int) -> Vec3 {
        if r == 1 {
            self.r1
        } else if r == 2 {
            self.r2
        } else {
            self.r3
        }
    }

    /// Column number `c` (one-based).
    pub open spec fn col(self, c: int) -> Vec3 {
        Vec3 { x: self.r1.component(c), y: self.r2.component(c), z: self.r3.component(c) }
    }

    /// The entry in row `r` and column `c` (both one-based).
    pub open spec fn entry(self, r: int, c: int) -> int {
        self.row(r).component(c)
    }

    /// The matrix with the entry in row `r` and column `c` replaced by `value`.
    pub open spec fn with_entry(self, r: int, c: int, value: int) -> Mat3 {
        if r == 1 {
            Mat3 { r1: self.r1.with_component(c, value), ..self }
        } else if r == 2 {
            Mat3 { r2: self.r2.with_component(c, value), ..self }
        } else {
            Mat3 { r3: self.r3.with_component(c, value), ..self }
        }
    }

    /// The matrix-vector product `self * v`.
    pub open spec fn apply(self, v: Vec3) -> Vec3 {
        Vec3 { x: self.r1.dot(v), y: self.r2.dot(v), z: self.r3.dot(v) }
    }

    /// The matrix product `self * o`.
    pub open spec fn compose(self, o: Mat3) -> Mat3 {
        Mat3 {
            r1: Vec3 { x: self.r1.dot(o.col(1)), y: self.r1.dot(o.col(2)), z: self.r1.dot(o.col(3)) },
            r2: Vec3 { x: self.r2.dot(o.col(1)), y: self.r2.dot(o.col(2)), z: self.r2.dot(o.col(3)) },
            r3: Vec3 { x: self.r3.dot(o.col(1)), y: self.r3.dot(o.col(2)), z: self.r3.dot(o.col(3)) },
        }
    }

    /// The quarter turn about the x axis; `cw` selects the sense.
    pub open spec fn rotation_x(cw: bool) -> Mat3 {
        let s: int = if cw { -1 } else { 1 };
        Mat3 {
            r1: Vec3 { x: 1, y: 0, z: 0 },
            r2: Vec3 { x: 0, y: 0, z: -s },
            r3: Vec3 { x: 0, y: s, z: 0 },
        }
    }

    /// The quarter turn about the y axis; `cw` selects the sense.
    pub open spec fn rotation_y(cw: bool) -> Mat3 {
        let s: int = if cw { -1 } else { 1 };
        Mat3 {
            r1: Vec3 { x: 0, y: 0, z: s },
            r2: Vec3 { x: 0, y: 1, z: 0 },
            r3: Vec3 { x: -s, y: 0, z: 0 },
        }
    }

    /// The quarter turn about the z axis; `cw` selects the sense.
    pub open spec fn rotation_z(cw: bool) -> Mat3 {
        let s: int = if cw { -1 } else { 1 };
        Mat3 {
            r1: Vec3 { x: 0, y: -s, z: 0 },
            r2: Vec3 { x: s, y: 0, z: 0 },
            r3: Vec3 { x: 0, y: 0, z: 1 },
        }
    }

    /// Every entry is -1, 0 or 1.
    pub open spec fn is_signs(self) -> bool {
        self.r1.is_signs() && self.r2.is_signs() && self.r3.is_signs()
    }

    /// Every entry can be held in an `i32`.
    pub open spec fn fits(self) -> bool {
        self.r1.fits() && self.r2.fits() && self.r3.fits()
    }
}

/// A product with a sign is the other factor, its negation, or zero.
pub proof fn lemma_signed_product(s: int, t: int)
    by (nonlinear_arith)
    requires
        s == -1 || s == 0 || s == 1,
    ensures
        s * t == if s == 0 { 0 } else if s == 1 { t } else { -t },
        t * s == if s == 0 { 0 } else if s == 1 { t } else { -t },
{
}

/// The dot product with a vector of signs adds and subtracts components.
pub broadcast proof fn lemma_dot_signs(a: Vec3, v: Vec3)
    requires
        a.is_signs(),
    ensures
        #[trigger] a.dot(v) == a.signed_dot(v),
{
    lemma_signed_product(a.x, v.x);
    lemma_signed_product(a.y, v.y);
    lemma_signed_product(a.z, v.z);
}

/// The dot product of `v` with a vector of signs adds and subtracts the
/// components of `v`.
pub broadcast proof fn lemma_dot_signs_right(v: Vec3, a: Vec3)
    requires
        a.is_signs(),
    ensures
        #[trigger] v.dot(a) == a.signed_dot(v),
{
    lemma_signed_product(a.x, v.x);
    lemma_signed_product(a.y, v.y);
    lemma_signed_product(a.z, v.z);
}

/// Scaling a vector of signs keeps, negates or clears the factor in every
/// component.
pub broadcast proof fn lemma_scaled_signs(v: Vec3, k: int)
    requires
        v.is_signs(),
    ensures
        #[trigger] v.scaled(k) == (Vec3 { x: signed(v.x, k), y: signed(v.y, k), z: signed(v.z, k) }),
{
    lemma_signed_product(v.x, k);
    lemma_signed_product(v.y, k);
    lemma_signed_product(v.z, k);
}

/// A matrix of signs acts on a vector by adding and subtracting its
/// components.
pub broadcast proof fn lemma_apply_signs(m: Mat3, v: Vec3)
    requires
        m.is_signs(),
    ensures
        #[trigger] m.apply(v) == (Vec3 {
            x: m.r1.signed_dot(v),
            y: m.r2.signed_dot(v),
            z: m.r3.signed_dot(v),
        }),
{
    lemma_dot_signs(m.r1, v);
    lemma_dot_signs(m.r2, v);
    lemma_dot_signs(m.r3, v);
}

/// An integer 3-vector with `i32` components.
#[derive(Debug, Clone, Copy, Eq)]
pub struct Vector([i32; 3]);

impl View for Vector {
    type V = Vec3;

    closed spec fn view(&self) -> Vec3 {
        Vec3 { x: self.0[0] as int, y: self.0[1] as int, z: self.0[2] as int }
    }
}

impl PartialEq for Vector {
    fn eq(&self, other: &Self) -> (r: bool) {
        self.0[0] == other.0[0] && self.0[1] == other.0[1] && self.0[2] == other.0[2]
    }
}

impl PartialEqSpecImpl for Vector {
    open spec fn obeys_eq_spec() -> bool {
        true
    }

    open spec fn eq_spec(&self, other: &Self) -> bool {
        self@ == other@
    }
}

impl PartialEq<[i32; 3]> for Vector {
    fn eq(&self, other: &[i32; 3]) -> (r: bool) {
        self.0[0] == other[0] && self.0[1] == other[1] && self.0[2] == other[2]
    }
}

impl PartialEqSpecImpl<[i32; 3]> for Vector {
    open spec fn obeys_eq_spec() -> bool {
        true
    }

    open spec fn eq_spec(&self, other: &[i32; 3]) -> bool {
        self@ == (Vec3 { x: other[0] as int, y: other[1] as int, z: other[2] as int })
    }
}

impl core::convert::From<&[i32; 3]> for Vector {
    fn from(a: &[i32; 3]) -> (v: Self) {
        proof {
            lemma_with_view(Vec3 { x: a[0] as int, y: a[1] as int, z: a[2] as int });
        }
        let v = Vector::new(a[0], a[1], a[2]);
        proof {
            lemma_vector_view_injective(
                v,
                Vector::with_view(Vec3 { x: a[0] as int, y: a[1] as int, z: a[2] as int }),
            );
        }
        v
    }
}

impl vstd::std_specs::convert::FromSpecImpl<&[i32; 3]> for Vector {
    open spec fn obeys_from_spec() -> bool {
        true
    }

    open spec fn from_spec(a: &[i32; 3]) -> Self {
        Vector::with_view(Vec3 { x: a[0] as int, y: a[1] as int, z: a[2] as int })
    }
}

impl core::ops::Index<usize> for Vector {
    type Output = i32;

    /// The component with the one-based number `rc`.
    fn index(&self, rc: usize) -> (r: &i32)
        ensures
            *r == self@.component(rc as int),
    {
        &self.0[rc - 1]
    }
}

impl vstd::std_specs::core::IndexSpecImpl<usize> for Vector {
    open spec fn index_req(&self, rc: &usize) -> bool {
        1 <= *rc <= 3
    }
}

impl core::ops::Add for &Vector {
    type Output = Vector;

    fn add(self, other: Self) -> (r: Vector) {
        proof {
            lemma_with_view(self@.plus(other@));
        }
        let mut r = *self;
        r.add_vec(other);
        proof {
            lemma_vector_view_injective(r, Vector::with_view(self@.plus(other@)));
        }
        r
    }
}

impl vstd::std_specs::ops::AddSpecImpl for &Vector {
    open spec fn obeys_add_spec() -> bool {
        true
    }

    open spec fn add_req(self, other: Self) -> bool {
        self@.plus(other@).fits()
    }

    open spec fn add_spec(self, other: Self) -> Vector {
        Vector::with_view(self@.plus(other@))
    }
}

impl core::ops::Mul for &Vector {
    type Output = i32;

    /// The dot product.
    fn mul(self, other: Self) -> (r: i32) {
        self.dot(other)
    }
}

impl vstd::std_specs::ops::MulSpecImpl for &Vector {
    open spec fn obeys_mul_spec() -> bool {
        true
    }

    open spec fn mul_req(self, other: Self) -> bool {
        i32::MIN <= self@.dot(other@) <= i32::MAX
    }

    open spec fn mul_spec(self, other: Self) -> i32 {
        self@.dot(other@) as i32
    }
}

/// The vector with the view `v` has that view, where `v` can be held in a
/// vector at all.
pub proof fn lemma_with_view(v: Vec3)
    requires
        v.fits(),
    ensures
        Vector::with_view(v)@ == v,
{
}

/// A vector is determined by its view.
pub proof fn lemma_vector_view_injective(a: Vector, b: Vector)
    requires
        a@ == b@,
    ensures
        a == b,
{
    assert(a.0 =~= b.0);
}

/// The product of two `i32` values has at most 63 significant bits.
proof fn lemma_product_bound(a: int, b: int)
    by (nonlinear_arith)
    requires
        i32::MIN <= a <= i32::MAX,
        i32::MIN <= b <= i32::MAX,
    ensures
        -0x4000_0000_0000_0000 <= a * b <= 0x4000_0000_0000_0000,
{
}

/// `a * b` computed without overflow.
fn wide_product(a: i32, b: i32) -> (p: i128)
    ensures
        p == a * b,
        -0x4000_0000_0000_0000 <= p <= 0x4000_0000_0000_0000,
{
    proof {
        lemma_product_bound(a as int, b as int);
    }
    (a as i128) * (b as i128)
}

impl Vector {
    /// The vector whose view is `v`, where `v` can be held in a vector.
    pub closed spec fn with_view(v: Vec3) -> Vector {
        Vector([v.x as i32, v.y as i32, v.z as i32])
    }

    /// The three components as an array.
    pub fn as_array(&self) -> (a: &[i32; 3])
        ensures
            self@ == (Vec3 { x: a[0] as int, y: a[1] as int, z: a[2] as int }),
    {
        &self.0
    }

    /// The vector with the components `x`, `y`, `z`.
    pub fn new(x: i32, y: i32, z: i32) -> (v: Self)
        ensures
            v@ == (Vec3 { x: x as int, y: y as int, z: z as int }),
    {
        Self([x, y, z])
    }

    /// The zero vector.
    pub fn zeros() -> (v: Self)
        ensures
            v@ == Vec3::zero(),
    {
        Self([0, 0, 0])
    }

    #[inline]
    pub fn x(&self) -> (r: i32)
        ensures
            r == self@.x,
    {
        self.0[0]
    }

    #[inline]
    pub fn y(&self) -> (r: i32)
        ensures
            r == self@.y,
    {
        self.0[1]
    }

    #[inline]
    pub fn z(&self) -> (r: i32)
        ensures
            r == self@.z,
    {
        self.0[2]
    }

    /// The component with the one-based number `rc`.
    pub fn get(&self, rc: usize) -> (r: i32)
        requires
            1 <= rc <= 3,
        ensures
            r == self@.component(rc as int),
    {
        self.0[rc - 1]
    }

    /// Replaces the component with the one-based number `rc` by `value`.
    pub fn set(&mut self, rc: usize, value: i32)
        requires
            1 <= rc <= 3,
        ensures
            final(self)@ == old(self)@.with_component(rc as int, value as int),
    {
        self.0[rc - 1] = value;
    }

    /// Adds `other` to this vector, component by component.
    pub fn add_vec(&mut self, other: &Vector) -> (r: &mut Self)
        requires
            old(self)@.plus(other@).fits(),
        ensures
            r@ == old(self)@.plus(other@),
            *final(self) == *final(r),
    {
        for i in 0..3usize
            invariant
                forall|j: int| 0 <= j < i ==> #[trigger] self.0[j] == old(self).0[j] + other.0[j],
                forall|j: int| i <= j < 3 ==> #[trigger] self.0[j] == old(self).0[j],
                old(self)@.plus(other@).fits(),
        {
            self.0[i] = self.0[i] + other.0[i];
        }
        self
    }

    /// Multiplies this vector by `other`, component by component.
    pub fn mul_vec(&mut self, other: &Vector) -> (r: &mut Self)
        requires
            old(self)@.times(other@).fits(),
        ensures
            r@ == old(self)@.times(other@),
            *final(self) == *final(r),
    {
        for i in 0..3usize
            invariant
                forall|j: int| 0 <= j < i ==> #[trigger] self.0[j] == old(self).0[j] * other.0[j],
                forall|j: int| i <= j < 3 ==> #[trigger] self.0[j] == old(self).0[j],
                old(self)@.times(other@).fits(),
        {
            self.0[i] = self.0[i] * other.0[i];
        }
        self
    }

    /// Multiplies every component of this vector by `scalar`.
    pub fn mul_scal(&mut self, scalar: i32) -> (r: &mut Self)
        requires
            old(self)@.scaled(scalar as int).fits(),
        ensures
            r@ == old(self)@.scaled(scalar as int),
            *final(self) == *final(r),
    {
        for i in 0..3usize
            invariant
                forall|j: int| 0 <= j < i ==> #[trigger] self.0[j] == old(self).0[j] * scalar,
                forall|j: int| i <= j < 3 ==> #[trigger] self.0[j] == old(self).0[j],
                old(self)@.scaled(scalar as int).fits(),
        {
            self.0[i] = self.0[i] * scalar;
        }
        self
    }

    /// The dot product with `other`.
    pub fn dot(&self, other: &Vector) -> (r: i32)
        requires
            i32::MIN <= self@.dot(other@) <= i32::MAX,
        ensures
            r == self@.dot(other@),
    {
        let sum: i128 = wide_product(self.0[0], other.0[0]) + wide_product(self.0[1], other.0[1])
            + wide_product(self.0[2], other.0[2]);
        sum as i32
    }

    /// The three parts of the vector along the x, y and z axes, in that order.
    pub fn components(&self) -> (r: [Vector; 3])
        ensures
            r[0]@ == self@.along(1),
            r[1]@ == self@.along(2),
            r[2]@ == self@.along(3),
    {
        [
            Vector::new(self.get(1), 0, 0),
            Vector::new(0, self.get(2), 0),
            Vector::new(0, 0, self.get(3)),
        ]
    }

    /// The two parts of a vector that has exactly two non-zero components,
    /// in the order of their axes.
    pub fn components2(&self) -> (r: [Vector; 2])
        requires
            self@.support() == 2,
        ensures
            r[0]@ == self@.along(self@.first_axis()),
            r[1]@ == self@.along(self@.last_axis()),
    {
        let mut i: usize = 0;
        let mut res = [Vector::zeros(), Vector::zeros()];

        for j in 1..4usize
            invariant
                self@.support() == 2,
                i == self@.support_below(j as int),
                i >= 1 ==> res[0]@ == self@.along(self@.first_axis()),
                i >= 2 ==> res[1]@ == self@.along(self@.last_axis()),
        {
            if self.get(j) != 0 {
                let mut v = Vector::zeros();
                v.set(j, self.get(j));
                res[i] = v;
                i += 1;
            }
        }

        res
    }
}

/// An integer 3x3 matrix with `i32` entries, stored row by row.
#[derive(Debug, Clone, Copy, Eq)]
pub struct Matrix([i32; 9]);

impl View for Matrix {
    type V = Mat3;

    closed spec fn view(&self) -> Mat3 {
        Mat3 {
            r1: Vec3 { x: self.0[0] as int, y: self.0[1] as int, z: self.0[2] as int },
            r2: Vec3 { x: self.0[3] as int, y: self.0[4] as int, z: self.0[5] as int },
            r3: Vec3 { x: self.0[6] as int, y: self.0[7] as int, z: self.0[8] as int },
        }
    }
}

impl PartialEq for Matrix {
    fn eq(&self, other: &Self) -> (r: bool) {
        let mut same = true;
        for i in 0..9usize
            invariant
                same <==> forall|j: int| 0 <= j < i ==> #[trigger] self.0[j] == other.0[j],
        {
            if self.0[i] != other.0[i] {
                same = false;
            }
        }
        same
    }
}

impl PartialEqSpecImpl for Matrix {
    open spec fn obeys_eq_spec() -> bool {
        true
    }

    open spec fn eq_spec(&self, other: &Self) -> bool {
        self@ == other@
    }
}

impl core::ops::Index<(usize, usize)> for Matrix {
    type Output = i32;

    /// The entry in row `rc.0` and column `rc.1`, both one-based.
    fn index(&self, rc: (usize, usize)) -> (e: &i32)
        ensures
            *e == self@.entry(rc.0 as int, rc.1 as int),
    {
        &self.0[(rc.0 - 1) * 3 + rc.1 - 1]
    }
}

impl vstd::std_specs::core::IndexSpecImpl<(usize, usize)> for Matrix {
    open spec fn index_req(&self, rc: &(usize, usize)) -> bool {
        1 <= rc.0 <= 3 && 1 <= rc.1 <= 3
    }
}

impl core::ops::Mul<&Vector> for &Matrix {
    type Output = Vector;

    fn mul(self, other: &Vector) -> (r: Vector) {
        proof {
            lemma_with_view(self@.apply(other@));
        }
        let r = self.mul_vec(other);
        proof {
            lemma_vector_view_injective(r, Vector::with_view(self@.apply(other@)));
        }
        r
    }
}

impl vstd::std_specs::ops::MulSpecImpl<&Vector> for &Matrix {
    open spec fn obeys_mul_spec() -> bool {
        true
    }

    open spec fn mul_req(self, other: &Vector) -> bool {
        self@.apply(other@).fits()
    }

    open spec fn mul_spec(self, other: &Vector) -> Vector {
        Vector::with_view(self@.apply(other@))
    }
}

impl core::ops::Mul for &Matrix {
    type Output = Matrix;

    fn mul(self, other: &Matrix) -> (r: Matrix) {
        proof {
            lemma_matrix_with_view(self@.compose(other@));
        }
        let r = self.mul_mat(other);
        proof {
            lemma_matrix_view_injective(r, Matrix::with_view(self@.compose(other@)));
        }
        r
    }
}

impl vstd::std_specs::ops::MulSpecImpl for &Matrix {
    open spec fn obeys_mul_spec() -> bool {
        true
    }

    open spec fn mul_req(self, other: &Matrix) -> bool {
        self@.compose(other@).fits()
    }

    open spec fn mul_spec(self, other: &Matrix) -> Matrix {
        Matrix::with_view(self@.compose(other@))
    }
}

/// The matrix with the view `m` has that view, where `m` can be held in a
/// matrix at all.
pub proof fn lemma_matrix_with_view(m: Mat3)
    requires
        m.fits(),
    ensures
        Matrix::with_view(m)@ == m,
{
}

/// A matrix is determined by its view.
pub proof fn lemma_matrix_view_injective(a: Matrix, b: Matrix)
    requires
        a@ == b@,
    ensures
        a == b,
{
    assert(a.0 =~= b.0);
}

/// The first `n` terms of the sum that defines entry (`i`, `j`) of the
/// product of `a` and `b`, with zero-based `i` and `j`.
spec fn entry_sum(a: [i32; 9], b: [i32; 9], i: int, j: int, n: int) -> int {
    (if 0 < n { a[3 * i] * b[j] } else { 0 }) + (if 1 < n { a[3 * i + 1] * b[3 + j] } else { 0 })
        + (if 2 < n { a[3 * i + 2] * b[6 + j] } else { 0 })
}

/// The first `n` terms of the sum that defines component `i` (zero-based) of
/// the product of the matrix `a` and the vector `v`.
spec fn component_sum(a: [i32; 9], v: [i32; 3], i: int, n: int) -> int {
    (if 0 < n { a[3 * i] * v[0] } else { 0 }) + (if 1 < n { a[3 * i + 1] * v[1] } else { 0 })
        + (if 2 < n { a[3 * i + 2] * v[2] } else { 0 })
}

impl Matrix {
    /// The matrix whose view is `m`, where `m` can be held in a matrix.
    pub closed spec fn with_view(m: Mat3) -> Matrix {
        Matrix(
            [
                m.r1.x as i32,
                m.r1.y as i32,
                m.r1.z as i32,
                m.r2.x as i32,
                m.r2.y as i32,
                m.r2.z as i32,
                m.r3.x as i32,
                m.r3.y as i32,
                m.r3.z as i32,
            ],
        )
    }

    /// The matrix of zeros.
    pub fn zeros() -> (m: Self)
        ensures
            m@ == Mat3::zero(),
    {
        Self([0, 0, 0, 0, 0, 0, 0, 0, 0])
    }

    /// The identity matrix.
    pub fn diag() -> (m: Self)
        ensures
            m@ == Mat3::identity(),
    {
        Self([1, 0, 0, 0, 1, 0, 0, 0, 1])
    }

    /// The quarter turn about the x axis; `cw` selects the sense.
    pub fn rotation_x(cw: bool) -> (m: Self)
        ensures
            m@ == Mat3::rotation_x(cw),
    {
        let s: i32 = if cw { -1 } else { 1 };
        Self([
            1, 0, 0,
            0, 0, -s,
            0, s, 0,
        ])
    }

    /// The quarter turn about the y axis; `cw` selects the sense.
    pub fn rotation_y(cw: bool) -> (m: Self)
        ensures
            m@ == Mat3::rotation_y(cw),
    {
        let s: i32 = if cw { -1 } else { 1 };
        Self([
            0, 0, s,
            0, 1, 0,
            -s, 0, 0,
        ])
    }

    /// The quarter turn about the z axis; `cw` selects the sense.
    pub fn rotation_z(cw: bool) -> (m: Self)
        ensures
            m@ == Mat3::rotation_z(cw),
    {
        let s: i32 = if cw { -1 } else { 1 };
        Self([
            0, -s, 0,
            s, 0, 0,
            0, 0, 1,
        ])
    }

    /// The entry in row `r` and column `c`, both one-based.
    pub fn get(&self, r: usize, c: usize) -> (e: i32)
        requires
            1 <= r <= 3,
            1 <= c <= 3,
        ensures
            e == self@.entry(r as int, c as int),
    {
        self.0[(r - 1) * 3 + c - 1]
    }

    /// Replaces the entry in row `r` and column `c`, both one-based, by `value`.
    pub fn set(&mut self, r: usize, c: usize, value: i32)
        requires
            1 <= r <= 3,
            1 <= c <= 3,
        ensures
            final(self)@ == old(self)@.with_entry(r as int, c as int, value as int),
    {
        self.0[(r - 1) * 3 + c - 1] = value;
    }

    /// The matrix product `self * other`.
    pub fn mul_mat(&self, other: &Self) -> (m: Matrix)
        requires
            self@.compose(other@).fits(),
        ensures
            m@ == self@.compose(other@),
    {
        let mut res = Self::zeros();
        for i in 0..3usize
            invariant
                self@.compose(other@).fits(),
                forall|a: int, b: int|
                    0 <= a < i && 0 <= b < 3 ==> #[trigger] res.0[3 * a + b] == entry_sum(
                        self.0,
                        other.0,
                        a,
                        b,
                        3,
                    ),
        {
            for j in 0..3usize
                invariant
                    i < 3,
                    self@.compose(other@).fits(),
                    forall|a: int, b: int|
                        0 <= a < i && 0 <= b < 3 ==> #[trigger] res.0[3 * a + b] == entry_sum(
                            self.0,
                            other.0,
                            a,
                            b,
                            3,
                        ),
                    forall|b: int|
                        0 <= b < j ==> #[trigger] res.0[3 * i + b] == entry_sum(
                            self.0,
                            other.0,
                            i as int,
                            b,
                            3,
                        ),
            {
                let mut acc: i128 = 0;
                for k in 0..3usize
                    invariant
                        i < 3,
                        j < 3,
                        acc == entry_sum(self.0, other.0, i as int, j as int, k as int),
                        -0x4000_0000_0000_0000 * k <= acc <= 0x4000_0000_0000_0000 * k,
                {
                    acc = acc + wide_product(self.0[i * 3 + k], other.0[k * 3 + j]);
                }
                res.0[i * 3 + j] = acc as i32;
            }
        }
        assert(res@ == self@.compose(other@)) by {
            assert forall|a: int, b: int| 0 <= a < 3 && 0 <= b < 3 implies res.0[3 * a + b]
                == #[trigger] entry_sum(self.0, other.0, a, b, 3) by {}
            assert(res@.r1.x == entry_sum(self.0, other.0, 0, 0, 3));
            assert(res@.r1.y == entry_sum(self.0, other.0, 0, 1, 3));
            assert(res@.r1.z == entry_sum(self.0, other.0, 0, 2, 3));
            assert(res@.r2.x == entry_sum(self.0, other.0, 1, 0, 3));
            assert(res@.r2.y == entry_sum(self.0, other.0, 1, 1, 3));
            assert(res@.r2.z == entry_sum(self.0, other.0, 1, 2, 3));
            assert(res@.r3.x == entry_sum(self.0, other.0, 2, 0, 3));
            assert(res@.r3.y == entry_sum(self.0, other.0, 2, 1, 3));
            assert(res@.r3.z == entry_sum(self.0, other.0, 2, 2, 3));
        }
        res
    }

    /// The matrix-vector product `self * vec`.
    pub fn mul_vec(&self, vec: &Vector) -> (v: Vector)
        requires
            self@.apply(vec@).fits(),
        ensures
            v@ == self@.apply(vec@),
    {
        let mut res = Vector::zeros();
        for r in 0..3usize
            invariant
                self@.apply(vec@).fits(),
                forall|a: int| 0 <= a < r ==> #[trigger] res.0[a] == component_sum(self.0, vec.0, a, 3),
        {
            let mut acc: i128 = 0;
            for c in 0..3usize
                invariant
                    r < 3,
                    acc == component_sum(self.0, vec.0, r as int, c as int),
                    -0x4000_0000_0000_0000 * c <= acc <= 0x4000_0000_0000_0000 * c,
            {
                acc = acc + wide_product(self.0[r * 3 + c], vec.0[c]);
            }
            res.0[r] = acc as i32;
        }
        res
    }
}

} // verus!
