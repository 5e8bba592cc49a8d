//! Fixed-point vectors and colors.
//!
//! Coordinates are integers in thousandths of a scene unit, so `1000` stands
//! for one unit.  Linear color channels are integers in 256ths, so `256`
//! stands for full intensity and values above it over-drive a channel.

use vstd::prelude::*;

verus! {

/// A point or direction in space, each coordinate in thousandths of a unit.
#[derive(Clone, Copy, Debug, PartialEq, Eq, Structural)]
pub struct Point3 {
    pub x: i32,
    pub y: i32,
    pub z: i32,
}

impl Point3 {
    pub fn new(x: i32, y: i32, z: i32) -> (p: Point3)
        ensures
            p == (Point3 { x, y, z }),
    {
        Point3 { x, y, z }
    }
}

/// A linear RGB color, each channel in 256ths of full intensity.
#[derive(Clone, Copy, Debug, PartialEq, Eq, Structural)]
pub struct Color {
    pub r: u32,
    pub g: u32,
    pub b: u32,
}

/// The blade and hub color of the one pinwheel the scene sets up:
/// a saturated blue with a little red and green mixed in.
pub fn shiny_metallic_blue() -> (c: Color)
    ensures
        c == (Color { r: 55, g: 48, b: 242 }),
{
    Color { r: 55, g: 48, b: 242 }
}

/// The palette's green, an alternative pinwheel coloring.
pub fn circuit_board_green() -> (c: Color)
    ensures
        c == (Color { r: 65, g: 191, b: 73 }),
{
    Color { r: 65, g: 191, b: 73 }
}

/// The directional light's color: full red and green, and a blue channel
/// driven far past full intensity so that bloom picks it up.
pub fn led_white() -> (c: Color)
    ensures
        c == (Color { r: 256, g: 256, b: 61952 }),
{
    Color { r: 256, g: 256, b: 61952 }
}

} // verus!
