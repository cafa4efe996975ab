use vstd::prelude::*;
use vstd::std_specs::ops::{AddSpecImpl, DivSpecImpl, MulSpecImpl, NegSpecImpl, SubSpecImpl};

verus! {

/// A two-dimensional vector.
#[derive(Clone, Copy, Debug, PartialEq, Eq, Structural)]
pub struct Vector2D<T> {
    pub x: T,
    pub y: T,
}

/// The integer vector used for positions and velocities.
pub type Vec2I = Vector2D<i32>;

/// Truncating integer division, as Rust's `/` computes it on signed integers.
pub open spec fn trunc_div(a: int, b: int) -> int {
    if a >= 0 {
        if b > 0 { a / b } else { -(a / (-b)) }
    } else {
        if b > 0 { -((-a) / b) } else { (-a) / (-b) }
    }
}

/// Whether `v` fits in an `i32`.
pub open spec fn fits_i32(v: int) -> bool {
    i32::MIN <= v <= i32::MAX
}

/// The zero vector.
pub open spec fn zero_vec() -> Vec2I {
    Vector2D { x: 0, y: 0 }
}

/// `a / b` on `i32`, rounding toward zero.
pub fn div_trunc(a: i32, b: i32) -> (q: i32)
    requires
        b != 0,
        !(a == i32::MIN && b == -1),
    ensures
        q == trunc_div(a as int, b as int),
{
    if b > 0 {
        a / b
    } else if b == i32::MIN {
        if a == i32::MIN { 1 } else { 0 }
    } else if b == -1 {
        -a
    } else {
        let d: i32 = -b;
        let q = a / d;
        assert(q > i32::MIN) by {
            if a < 0 {
                assert(q == -((-(a as int)) / (d as int)));
                assert((-(a as int)) / (d as int) < 0x8000_0000) by (nonlinear_arith)
                    requires -(a as int) <= 0x8000_0000, d >= 2;
            }
        }
        -q
    }
}

impl<T> Vector2D<T> {
    pub fn new(x: T, y: T) -> (v: Self)
        ensures
            v.x == x,
            v.y == y,
    {
        Self { x, y }
    }
}

impl Vector2D<i32> {
    /// The zero vector.
    pub fn zero() -> (v: Vec2I)
        ensures
            v == zero_vec(),
    {
        Vector2D { x: 0, y: 0 }
    }

    /// Componentwise sum.
    pub fn plus(&self, other: &Vec2I) -> (v: Vec2I)
        requires
            fits_i32(self.x + other.x),
            fits_i32(self.y + other.y),
        ensures
            v.x == self.x + other.x,
            v.y == self.y + other.y,
    {
        Vector2D { x: self.x + other.x, y: self.y + other.y }
    }

    /// Componentwise difference.
    pub fn minus(&self, other: &Vec2I) -> (v: Vec2I)
        requires
            fits_i32(self.x - other.x),
            fits_i32(self.y - other.y),
        ensures
            v.x == self.x - other.x,
            v.y == self.y - other.y,
    {
        Vector2D { x: self.x - other.x, y: self.y - other.y }
    }

    /// Both components multiplied by `rhs`.
    pub fn times(&self, rhs: i32) -> (v: Vec2I)
        requires
            fits_i32(self.x * rhs),
            fits_i32(self.y * rhs),
        ensures
            v.x == self.x * rhs,
            v.y == self.y * rhs,
    {
        Vector2D { x: self.x * rhs, y: self.y * rhs }
    }

    /// Both components divided by `rhs`, rounding toward zero.
    pub fn divided(&self, rhs: i32) -> (v: Vec2I)
        requires
            rhs != 0,
            !(self.x == i32::MIN && rhs == -1),
            !(self.y == i32::MIN && rhs == -1),
        ensures
            v.x == trunc_div(self.x as int, rhs as int),
            v.y == trunc_div(self.y as int, rhs as int),
    {
        Vector2D { x: div_trunc(self.x, rhs), y: div_trunc(self.y, rhs) }
    }

    /// Both components negated.
    pub fn negated(&self) -> (v: Vec2I)
        requires
            self.x != i32::MIN,
            self.y != i32::MIN,
        ensures
            v.x == -self.x,
            v.y == -self.y,
    {
        Vector2D { x: -self.x, y: -self.y }
    }
}

impl<'a> core::ops::Add for &'a Vector2D<i32> {
    type Output = Vector2D<i32>;

    fn add(self, other: Self) -> (v: Vector2D<i32>) {
        self.plus(other)
    }
}

impl<'a> AddSpecImpl for &'a Vector2D<i32> {
    open spec fn obeys_add_spec() -> bool {
        true
    }

    open spec fn add_req(self, other: Self) -> bool {
        fits_i32(self.x + other.x) && fits_i32(self.y + other.y)
    }

    open spec fn add_spec(self, other: Self) -> Vector2D<i32> {
        Vector2D { x: (self.x + other.x) as i32, y: (self.y + other.y) as i32 }
    }
}

impl<'a> core::ops::Sub for &'a Vector2D<i32> {
    type Output = Vector2D<i32>;

    fn sub(self, other: Self) -> (v: Vector2D<i32>) {
        self.minus(other)
    }
}

impl<'a> SubSpecImpl for &'a Vector2D<i32> {
    open spec fn obeys_sub_spec() -> bool {
        true
    }

    open spec fn sub_req(self, other: Self) -> bool {
        fits_i32(self.x - other.x) && fits_i32(self.y - other.y)
    }

    open spec fn sub_spec(self, other: Self) -> Vector2D<i32> {
        Vector2D { x: (self.x - other.x) as i32, y: (self.y - other.y) as i32 }
    }
}

impl<'a> core::ops::Mul<i32> for &'a Vector2D<i32> {
    type Output = Vector2D<i32>;

    fn mul(self, rhs: i32) -> (v: Vector2D<i32>) {
        self.times(rhs)
    }
}

impl<'a> MulSpecImpl<i32> for &'a Vector2D<i32> {
    open spec fn obeys_mul_spec() -> bool {
        true
    }

    open spec fn mul_req(self, rhs: i32) -> bool {
        fits_i32(self.x * rhs) && fits_i32(self.y * rhs)
    }

    open spec fn mul_spec(self, rhs: i32) -> Vector2D<i32> {
        Vector2D { x: (self.x * rhs) as i32, y: (self.y * rhs) as i32 }
    }
}

impl<'a> core::ops::Div<i32> for &'a Vector2D<i32> {
    type Output = Vector2D<i32>;

    fn div(self, rhs: i32) -> (v: Vector2D<i32>) {
        self.divided(rhs)
    }
}

impl<'a> DivSpecImpl<i32> for &'a Vector2D<i32> {
    open spec fn obeys_div_spec() -> bool {
        true
    }

    open spec fn div_req(self, rhs: i32) -> bool {
        rhs != 0 && !(self.x == i32::MIN && rhs == -1) && !(self.y == i32::MIN && rhs == -1)
    }

    open spec fn div_spec(self, rhs: i32) -> Vector2D<i32> {
        Vector2D {
            x: trunc_div(self.x as int, rhs as int) as i32,
            y: trunc_div(self.y as int, rhs as int) as i32,
        }
    }
}

impl<'a> core::ops::Neg for &'a Vector2D<i32> {
    type Output = Vector2D<i32>;

    fn neg(self) -> (v: Vector2D<i32>) {
        self.negated()
    }
}

impl<'a> NegSpecImpl for &'a Vector2D<i32> {
    open spec fn obeys_neg_spec() -> bool {
        true
    }

    open spec fn neg_req(self) -> bool {
        self.x != i32::MIN && self.y != i32::MIN
    }

    open spec fn neg_spec(self) -> Vector2D<i32> {
        Vector2D { x: (-self.x) as i32, y: (-self.y) as i32 }
    }
}

} // verus!
