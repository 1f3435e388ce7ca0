//! Positions and directions, held as integer keys.
//!
//! A coordinate is never computed with here: it is compared, carried and
//! stored. Its key is an integer that orders as the coordinate does.

use vstd::prelude::*;

verus! {

/// A position in space.
#[derive(Clone, Copy, Debug, PartialEq, Eq, Hash, Structural)]
pub struct Point3 {
    pub x: i64,
    pub y: i64,
    pub z: i64,
}

/// A direction and length in space.
#[derive(Clone, Copy, Debug, PartialEq, Eq, Hash, Structural)]
pub struct Vector3 {
    pub x: i64,
    pub y: i64,
    pub z: i64,
}

/// A position on a surface.
#[derive(Clone, Copy, Debug, PartialEq, Eq, Hash, Structural)]
pub struct Point2 {
    pub u: i64,
    pub v: i64,
}

/// A direction and length on a surface.
#[derive(Clone, Copy, Debug, PartialEq, Eq, Hash, Structural)]
pub struct Vector2 {
    pub u: i64,
    pub v: i64,
}

/// A path through space.
#[derive(Clone, Copy, Debug, PartialEq, Eq, Hash, Structural)]
pub enum GlobalPath {
    /// A circle, by its center and two radii at right angles.
    Circle { center: Point3, a: Vector3, b: Vector3 },
    /// A line, by a point on it and its direction.
    Line { origin: Point3, direction: Vector3 },
}

/// A path on a surface.
#[derive(Clone, Copy, Debug, PartialEq, Eq, Hash, Structural)]
pub enum SurfacePath {
    /// A circle, by its center and two radii at right angles.
    Circle { center: Point2, a: Vector2, b: Vector2 },
    /// A line, by the two points on it at which its parameter is zero and
    /// one.
    Line { from: Point2, to: Point2 },
}

/// The coordinate system of a surface: a path swept along a vector.
#[derive(Clone, Copy, Debug, PartialEq, Eq, Hash, Structural)]
pub struct SurfaceGeometry {
    /// The path that defines the u-coordinate.
    pub u: GlobalPath,
    /// The vector that defines the v-coordinate.
    pub v: Vector3,
}

} // verus!
