//! Fixed-point vectors.
//!
//! Every length in this crate is a whole number of sub-units, sixty to the
//! world unit. The simulation runs at sixty ticks per second, so a speed of
//! `v` world units per second moves a body by exactly `v` sub-units per tick,
//! and no step of the simulation ever rounds.

use vstd::prelude::*;

verus! {

/// Sub-units in one world unit.
pub const UNIT: i64 = 60;

/// A point or extent in the plane, as mathematical integers.
pub struct Vec2View {
    pub x: int,
    pub y: int,
}

/// A point or extent in the plane with a depth, as mathematical integers.
pub struct Vec3View {
    pub x: int,
    pub y: int,
    pub z: int,
}

impl Vec2View {
    /// The vector with depth `z` added.
    pub open spec fn extend(self, z: int) -> Vec3View {
        Vec3View { x: self.x, y: self.y, z }
    }

    /// The square of the vector's Euclidean length.
    pub open spec fn length_squared(self) -> int {
        self.x * self.x + self.y * self.y
    }

    /// The vector stretched by `factor`.
    pub open spec fn scaled(self, factor: int) -> Vec2View {
        Vec2View { x: self.x * factor, y: self.y * factor }
    }
}

impl Vec3View {
    /// The vector without its depth.
    pub open spec fn truncate(self) -> Vec2View {
        Vec2View { x: self.x, y: self.y }
    }
}

/// The length of `n` world units, in sub-units.
pub open spec fn units_spec(n: int) -> int {
    n * UNIT
}

/// The length of `n` world units, in sub-units.
pub fn units(n: i32) -> (r: i64)
    ensures
        r == units_spec(n as int),
{
    let wide: i64 = n as i64;
    wide * UNIT
}

/// A point or extent in the plane, in sub-units.
#[derive(Clone, Copy, Debug, PartialEq, Eq, Structural)]
pub struct Vec2 {
    pub x: i64,
    pub y: i64,
}

/// A point or extent in the plane with a depth, in sub-units.
#[derive(Clone, Copy, Debug, PartialEq, Eq, Structural)]
pub struct Vec3 {
    pub x: i64,
    pub y: i64,
    pub z: i64,
}

impl View for Vec2 {
    type V = Vec2View;

    open spec fn view(&self) -> Vec2View {
        Vec2View { x: self.x as int, y: self.y as int }
    }
}

impl View for Vec3 {
    type V = Vec3View;

    open spec fn view(&self) -> Vec3View {
        Vec3View { x: self.x as int, y: self.y as int, z: self.z as int }
    }
}

impl Vec2 {
    /// The vector with the given coordinates in sub-units.
    pub fn new(x: i64, y: i64) -> (v: Vec2)
        ensures
            v@ == (Vec2View { x: x as int, y: y as int }),
    {
        Vec2 { x, y }
    }

    /// The vector with the given coordinates in world units.
    pub fn from_units(x: i32, y: i32) -> (v: Vec2)
        ensures
            v@ == (Vec2View { x: units_spec(x as int), y: units_spec(y as int) }),
    {
        Vec2 { x: units(x), y: units(y) }
    }

    /// The vector with depth `z` added.
    pub fn extend(self, z: i64) -> (v: Vec3)
        ensures
            v@ == self@.extend(z as int),
    {
        Vec3 { x: self.x, y: self.y, z }
    }
}

impl Vec3 {
    /// The vector with the given coordinates in sub-units.
    pub fn new(x: i64, y: i64, z: i64) -> (v: Vec3)
        ensures
            v@ == (Vec3View { x: x as int, y: y as int, z: z as int }),
    {
        Vec3 { x, y, z }
    }

    /// The vector with the given coordinates in world units.
    pub fn from_units(x: i32, y: i32, z: i32) -> (v: Vec3)
        ensures
            v@ == (Vec3View {
                x: units_spec(x as int),
                y: units_spec(y as int),
                z: units_spec(z as int),
            }),
    {
        Vec3 { x: units(x), y: units(y), z: units(z) }
    }

    /// The vector without its depth.
    pub fn truncate(self) -> (v: Vec2)
        ensures
            v@ == self@.truncate(),
    {
        Vec2 { x: self.x, y: self.y }
    }
}

/// A body's place and extent: the centre of its box and the box's size.
pub struct TransformView {
    pub translation: Vec3View,
    pub scale: Vec3View,
}

/// A body's place and extent: the centre of its box and the box's size.
#[derive(Clone, Copy, Debug, PartialEq, Eq, Structural)]
pub struct Transform {
    pub translation: Vec3,
    pub scale: Vec3,
}

impl View for Transform {
    type V = TransformView;

    open spec fn view(&self) -> TransformView {
        TransformView { translation: self.translation@, scale: self.scale@ }
    }
}

} // verus!
