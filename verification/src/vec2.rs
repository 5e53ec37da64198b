//! A pair of scalars of one type, with component-wise arithmetic.

use std::ops::{Add, Div, Mul, Rem};
use vstd::prelude::*;
use vstd::std_specs::convert::FromSpecImpl;
use vstd::std_specs::ops::{
    AddSpec, AddSpecImpl, DivSpec, DivSpecImpl, MulSpec, MulSpecImpl, RemSpec, RemSpecImpl,
};

verus! {

/// Two scalars `x` and `y`: a size, an offset or a grid index.
#[derive(Debug, PartialEq, Eq)]
pub struct Vec2<T> {
    pub x: T,
    pub y: T,
}

impl<T: Copy> Clone for Vec2<T> {
    #[inline]
    fn clone(&self) -> (copy: Self)
        ensures
            copy == *self,
    {
        *self
    }
}

impl<T: Copy> Copy for Vec2<T> {

}

impl<T: Copy> Vec2<T> {
    pub fn new(x: T, y: T) -> (v: Self)
        ensures
            v.x == x,
            v.y == y,
    {
        Self { x, y }
    }

    #[inline]
    pub fn x(&self) -> (x: T)
        ensures
            x == self.x,
    {
        self.x
    }

    #[inline]
    pub fn y(&self) -> (y: T)
        ensures
            y == self.y,
    {
        self.y
    }
}

impl<T: Copy + Rem<Output = T>> RemSpecImpl for Vec2<T> {
    open spec fn obeys_rem_spec() -> bool {
        <T as RemSpec>::obeys_rem_spec()
    }

    open spec fn rem_req(self, rhs: Self) -> bool {
        self.x.rem_req(rhs.x) && self.y.rem_req(rhs.y)
    }

    open spec fn rem_spec(self, rhs: Self) -> Self {
        Vec2 { x: self.x.rem_spec(rhs.x), y: self.y.rem_spec(rhs.y) }
    }
}

/// Remainder, component by component.
impl<T: Copy + Rem<Output = T>> Rem for Vec2<T> {
    type Output = Vec2<T>;

    #[inline]
    fn rem(self, rhs: Self) -> Self::Output {
        Vec2 { x: self.x % rhs.x, y: self.y % rhs.y }
    }
}

impl<T: Copy + Mul<Output = T>> MulSpecImpl for Vec2<T> {
    open spec fn obeys_mul_spec() -> bool {
        <T as MulSpec>::obeys_mul_spec()
    }

    open spec fn mul_req(self, rhs: Self) -> bool {
        self.x.mul_req(rhs.x) && self.y.mul_req(rhs.y)
    }

    open spec fn mul_spec(self, rhs: Self) -> Self {
        Vec2 { x: self.x.mul_spec(rhs.x), y: self.y.mul_spec(rhs.y) }
    }
}

/// Product, component by component.
impl<T: Copy + Mul<Output = T>> Mul for Vec2<T> {
    type Output = Vec2<T>;

    #[inline]
    fn mul(self, rhs: Self) -> Self::Output {
        Vec2 { x: self.x * rhs.x, y: self.y * rhs.y }
    }
}

impl<T: Copy + Mul<Output = T>> MulSpecImpl<T> for Vec2<T> {
    open spec fn obeys_mul_spec() -> bool {
        <T as MulSpec>::obeys_mul_spec()
    }

    open spec fn mul_req(self, rhs: T) -> bool {
        self.x.mul_req(rhs) && self.y.mul_req(rhs)
    }

    open spec fn mul_spec(self, rhs: T) -> Self {
        Vec2 { x: self.x.mul_spec(rhs), y: self.y.mul_spec(rhs) }
    }
}

/// Both components times one scalar.
impl<T: Copy + Mul<Output = T>> Mul<T> for Vec2<T> {
    type Output = Vec2<T>;

    #[inline]
    fn mul(self, rhs: T) -> Self::Output {
        Vec2 { x: self.x * rhs, y: self.y * rhs }
    }
}

impl<T: Copy + Div<Output = T>> DivSpecImpl for Vec2<T> {
    open spec fn obeys_div_spec() -> bool {
        <T as DivSpec>::obeys_div_spec()
    }

    open spec fn div_req(self, rhs: Self) -> bool {
        self.x.div_req(rhs.x) && self.y.div_req(rhs.y)
    }

    open spec fn div_spec(self, rhs: Self) -> Self {
        Vec2 { x: self.x.div_spec(rhs.x), y: self.y.div_spec(rhs.y) }
    }
}

/// Quotient, component by component; truncating where `T` is an integer.
impl<T: Copy + Div<Output = T>> Div for Vec2<T> {
    type Output = Vec2<T>;

    #[inline]
    fn div(self, rhs: Self) -> Self::Output {
        Vec2 { x: self.x / rhs.x, y: self.y / rhs.y }
    }
}

impl<T: Copy + Add<Output = T>> AddSpecImpl for Vec2<T> {
    open spec fn obeys_add_spec() -> bool {
        <T as AddSpec>::obeys_add_spec()
    }

    open spec fn add_req(self, rhs: Self) -> bool {
        self.x.add_req(rhs.x) && self.y.add_req(rhs.y)
    }

    open spec fn add_spec(self, rhs: Self) -> Self {
        Vec2 { x: self.x.add_spec(rhs.x), y: self.y.add_spec(rhs.y) }
    }
}

/// Sum, component by component.
impl<T: Copy + Add<Output = T>> Add for Vec2<T> {
    type Output = Vec2<T>;

    #[inline]
    fn add(self, rhs: Self) -> Self::Output {
        Vec2 { x: self.x + rhs.x, y: self.y + rhs.y }
    }
}

impl<T: Copy> FromSpecImpl<(T, T)> for Vec2<T> {
    open spec fn obeys_from_spec() -> bool {
        true
    }

    open spec fn from_spec(value: (T, T)) -> Self {
        Vec2 { x: value.0, y: value.1 }
    }
}

impl<T: Copy> From<(T, T)> for Vec2<T> {
    #[inline]
    fn from(value: (T, T)) -> Self {
        Vec2 { x: value.0, y: value.1 }
    }
}

impl<T> FromSpecImpl<Vec2<T>> for (T, T) {
    open spec fn obeys_from_spec() -> bool {
        true
    }

    open spec fn from_spec(val: Vec2<T>) -> Self {
        (val.x, val.y)
    }
}

impl<T> From<Vec2<T>> for (T, T) {
    #[inline]
    fn from(val: Vec2<T>) -> Self {
        (val.x, val.y)
    }
}

} // verus!
