//! The square painted under the cursor, and its colour.

use vstd::prelude::*;

verus! {

/// The width of the painted square, in pixels.
pub const WIDTH: i32 = 200;

/// The height of the painted square, in pixels.
pub const HEIGHT: i32 = 200;

/// The bits of a colour value that hold its red, green and blue parts.
pub const COLOR_MASK: u32 = 0x00FF_FFFF;

/// A rectangle in the coordinates of a window.
#[derive(Debug, Clone, Copy, PartialEq, Eq)]
pub struct Square {
    pub left: i32,
    pub top: i32,
    pub right: i32,
    pub bottom: i32,
}

/// The square of `WIDTH` by `HEIGHT` pixels whose centre is the point
/// `(x, y)`.
pub fn centered_square(x: i32, y: i32) -> (r: Square)
    requires
        i32::MIN + WIDTH / 2 <= x <= i32::MAX - WIDTH / 2,
        i32::MIN + HEIGHT / 2 <= y <= i32::MAX - HEIGHT / 2,
    ensures
        r.left == x - 100,
        r.top == y - 100,
        r.right == x + 100,
        r.bottom == y + 100,
{
    Square {
        left: x - (WIDTH / 2),
        top: y - (HEIGHT / 2),
        right: x + (WIDTH / 2),
        bottom: y + (HEIGHT / 2),
    }
}

/// Calls `rand::random::<u32>`, which draws from the thread's generator.
/// Nothing is claimed of the number drawn.
#[verifier::external_body]
fn random_bits() -> u32 {
    rand::random::<u32>()
}

/// The colour to paint with: the one asked for, or else the colour that
/// the low 24 bits of `bits` stand for.
pub fn pick_color(requested: Option<u32>, bits: u32) -> (r: u32)
    ensures
        r == match requested {
            Some(color) => color,
            None => bits & COLOR_MASK,
        },
        requested.is_none() ==> r <= COLOR_MASK,
{
    assert(bits & 0x00FF_FFFF <= 0x00FF_FFFF) by (bit_vector);
    match requested {
        Some(color) => color,
        None => bits & COLOR_MASK,
    }
}

/// The colour to paint with: the one asked for, or else a colour drawn at
/// random, which has no bits beyond red, green and blue.
pub fn paint_color(requested: Option<u32>) -> (r: u32)
    ensures
        match requested {
            Some(color) => r == color,
            None => r <= COLOR_MASK,
        },
{
    pick_color(requested, random_bits())
}

} // verus!
