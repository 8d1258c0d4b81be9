//! Points, vectors and axis-aligned rectangles.

use vstd::prelude::*;

verus! {

/// A pair of unbounded integers: what a [`Vec2`] stands for.
pub struct Vec2Model {
    pub x: int,
    pub y: int,
}

impl Vec2Model {
    /// Component-wise sum.
    pub open spec fn plus(self, other: Vec2Model) -> Vec2Model {
        Vec2Model { x: self.x + other.x, y: self.y + other.y }
    }
}

/// A point or a displacement in the plane, in units; `y` grows downward.
#[derive(Clone, Copy, Debug, PartialEq, Eq)]
pub struct Vec2 {
    pub x: i64,
    pub y: i64,
}

impl View for Vec2 {
    type V = Vec2Model;

    open spec fn view(&self) -> Vec2Model {
        Vec2Model { x: self.x as int, y: self.y as int }
    }
}

impl Vec2 {
    pub fn new(x: i64, y: i64) -> (v: Vec2)
        ensures
            v.x == x,
            v.y == y,
    {
        Vec2 { x, y }
    }

    /// The vector with both components zero.
    pub fn zero() -> (v: Vec2)
        ensures
            v.x == 0,
            v.y == 0,
    {
        Vec2 { x: 0, y: 0 }
    }
}

/// What a [`Rectangle`] stands for: a top-left corner and an extent.
pub struct RectangleModel {
    pub x: int,
    pub y: int,
    pub width: int,
    pub height: int,
}

impl RectangleModel {
    /// Whether the two rectangles overlap. Rectangles that merely share an
    /// edge do not.
    pub open spec fn intersects(self, other: RectangleModel) -> bool {
        &&& self.x < other.x + other.width
        &&& self.x + self.width > other.x
        &&& self.y < other.y + other.height
        &&& self.y + self.height > other.y
    }
}

/// An axis-aligned rectangle, given by its top-left corner and its extent.
#[derive(Clone, Copy, Debug, PartialEq, Eq)]
pub struct Rectangle {
    pub x: i64,
    pub y: i64,
    pub width: i64,
    pub height: i64,
}

impl View for Rectangle {
    type V = RectangleModel;

    open spec fn view(&self) -> RectangleModel {
        RectangleModel {
            x: self.x as int,
            y: self.y as int,
            width: self.width as int,
            height: self.height as int,
        }
    }
}

impl Rectangle {
    pub fn new(x: i64, y: i64, width: i64, height: i64) -> (r: Rectangle)
        ensures
            r.x == x,
            r.y == y,
            r.width == width,
            r.height == height,
    {
        Rectangle { x, y, width, height }
    }

    /// Whether `other` overlaps `self`. The sums are formed in 128 bits, so
    /// every pair of rectangles is admitted.
    pub fn intersects(&self, other: &Rectangle) -> (hit: bool)
        ensures
            hit == self@.intersects(other@),
    {
        let left: i128 = self.x as i128;
        let right: i128 = self.x as i128 + self.width as i128;
        let top: i128 = self.y as i128;
        let bottom: i128 = self.y as i128 + self.height as i128;
        let other_left: i128 = other.x as i128;
        let other_right: i128 = other.x as i128 + other.width as i128;
        let other_top: i128 = other.y as i128;
        let other_bottom: i128 = other.y as i128 + other.height as i128;
        left < other_right && right > other_left && top < other_bottom && bottom > other_top
    }
}

} // verus!
