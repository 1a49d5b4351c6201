//! Bitmaps of four bytes per pixel: single-colour squares, and the change
//! from red-green-blue-alpha to blue-green-red-alpha byte order.

use vstd::prelude::*;

verus! {

/// The side of the single-colour squares, in pixels.
pub const SQUARE_SIDE: u32 = 64;

/// The number of pixels of a single-colour square.
pub const SQUARE_PIXELS: u32 = 4096;

/// The byte that stands at place `k` of a pixel of the bytes `r g b a`.
pub open spec fn channel(k: int, r: u8, g: u8, b: u8, a: u8) -> u8 {
    if k == 0 {
        r
    } else if k == 1 {
        g
    } else if k == 2 {
        b
    } else {
        a
    }
}

/// Whether `data` is a bitmap of `pixels` pixels that all hold the four
/// bytes `r g b a`.
pub open spec fn is_solid(data: Seq<u8>, pixels: int, r: u8, g: u8, b: u8, a: u8) -> bool {
    &&& data.len() == 4 * pixels
    &&& forall|i: int| 0 <= i < data.len() ==> #[trigger] data[i] == channel(i % 4, r, g, b, a)
}

/// `data` with the first and third byte of every complete group of four
/// exchanged; bytes after the last complete group stay.
pub open spec fn swapped(data: Seq<u8>) -> Seq<u8> {
    Seq::new(
        data.len(),
        |i: int|
            if i / 4 * 4 + 3 < data.len() {
                if i % 4 == 0 {
                    data[i + 2]
                } else if i % 4 == 2 {
                    data[i - 2]
                } else {
                    data[i]
                }
            } else {
                data[i]
            },
    )
}

/// Exchanging twice gives back the bytes that one started with.
pub proof fn lemma_swapped_twice(data: Seq<u8>)
    ensures
        swapped(swapped(data)) == data,
{
    let once = swapped(data);
    assert forall|i: int| 0 <= i < data.len() implies swapped(once)[i] == data[i] by {
        if i / 4 * 4 + 3 < data.len() {
            if i % 4 == 0 {
                assert((i + 2) / 4 == i / 4 && (i + 2) % 4 == 2);
            } else if i % 4 == 2 {
                assert((i - 2) / 4 == i / 4 && (i - 2) % 4 == 0);
            }
        }
    }
    assert(swapped(once) =~= data);
}

/// A bitmap of `width` by `height` pixels, each holding the bytes
/// `r g b a`, row by row.
pub fn solid(width: u32, height: u32, r: u8, g: u8, b: u8, a: u8) -> (data: Vec<u8>)
    requires
        4 * (width * height) <= usize::MAX,
    ensures
        is_solid(data@, width * height, r, g, b, a),
{
    let mut data: Vec<u8> = Vec::new();
    let mut y: u32 = 0;
    while y < height
        invariant
            y <= height,
            4 * (width * height) <= usize::MAX,
            is_solid(data@, y * width, r, g, b, a),
        decreases height - y,
    {
        let mut x: u32 = 0;
        while x < width
            invariant
                x <= width,
                y < height,
                4 * (width * height) <= usize::MAX,
                is_solid(data@, y * width + x, r, g, b, a),
            decreases width - x,
        {
            let ghost before = data@;
            let ghost p = y * width + x;
            data.push(r);
            data.push(g);
            data.push(b);
            data.push(a);
            x = x + 1;
            proof {
                assert forall|i: int| 0 <= i < data@.len() implies #[trigger] data@[i] == channel(
                    i % 4,
                    r,
                    g,
                    b,
                    a,
                ) by {
                    if i < 4 * p {
                        assert(data@[i] == before[i]);
                    }
                }
            }
        }
        proof {
            assert(y * width + width == (y + 1) * width) by (nonlinear_arith);
        }
        y = y + 1;
    }
    proof {
        assert(height * width == width * height) by (nonlinear_arith);
    }
    data
}

/// An opaque blue square.
pub fn blue() -> (r: (Vec<u8>, u32, u32))
    ensures
        r.1 == SQUARE_SIDE,
        r.2 == SQUARE_SIDE,
        is_solid(r.0@, SQUARE_PIXELS as int, 0, 0, 255, 255),
{
    assert(SQUARE_SIDE * SQUARE_SIDE == SQUARE_PIXELS) by (nonlinear_arith);
    (solid(SQUARE_SIDE, SQUARE_SIDE, 0, 0, 255, 255), SQUARE_SIDE, SQUARE_SIDE)
}

/// An opaque red square.
pub fn red() -> (r: (Vec<u8>, u32, u32))
    ensures
        r.1 == SQUARE_SIDE,
        r.2 == SQUARE_SIDE,
        is_solid(r.0@, SQUARE_PIXELS as int, 255, 0, 0, 255),
{
    assert(SQUARE_SIDE * SQUARE_SIDE == SQUARE_PIXELS) by (nonlinear_arith);
    (solid(SQUARE_SIDE, SQUARE_SIDE, 255, 0, 0, 255), SQUARE_SIDE, SQUARE_SIDE)
}

/// An opaque green square.
pub fn green() -> (r: (Vec<u8>, u32, u32))
    ensures
        r.1 == SQUARE_SIDE,
        r.2 == SQUARE_SIDE,
        is_solid(r.0@, SQUARE_PIXELS as int, 0, 255, 0, 255),
{
    assert(SQUARE_SIDE * SQUARE_SIDE == SQUARE_PIXELS) by (nonlinear_arith);
    (solid(SQUARE_SIDE, SQUARE_SIDE, 0, 255, 0, 255), SQUARE_SIDE, SQUARE_SIDE)
}

/// A red square that is half transparent.
pub fn half_alpha() -> (r: (Vec<u8>, u32, u32))
    ensures
        r.1 == SQUARE_SIDE,
        r.2 == SQUARE_SIDE,
        is_solid(r.0@, SQUARE_PIXELS as int, 255, 0, 0, 128),
{
    assert(SQUARE_SIDE * SQUARE_SIDE == SQUARE_PIXELS) by (nonlinear_arith);
    (solid(SQUARE_SIDE, SQUARE_SIDE, 255, 0, 0, 128), SQUARE_SIDE, SQUARE_SIDE)
}

/// Turns pixels of red-green-blue-alpha bytes into pixels of
/// blue-green-red-alpha bytes, in place.
pub fn rgba_to_bgra(data: &mut Vec<u8>)
    ensures
        final(data)@ == swapped(old(data)@),
{
    let n = data.len();
    let mut i: usize = 0;
    while n - i >= 4
        invariant
            n == old(data)@.len(),
            data@.len() == n,
            i % 4 == 0,
            i <= n,
            forall|k: int| 0 <= k < i ==> data@[k] == #[trigger] swapped(old(data)@)[k],
            forall|k: int| i <= k < n ==> data@[k] == old(data)@[k],
        decreases n - i,
    {
        let red = data[i];
        let blue = data[i + 2];
        data.set(i, blue);
        data.set(i + 2, red);
        proof {
            assert forall|k: int| i <= k < i + 4 implies data@[k] == #[trigger] swapped(
                old(data)@,
            )[k] by {
                assert(k / 4 == i / 4);
                assert(k / 4 * 4 + 3 < n);
            }
        }
        i = i + 4;
    }
    proof {
        assert forall|k: int| i <= k < n implies data@[k] == #[trigger] swapped(old(data)@)[k] by {
            assert(k / 4 == i / 4);
        }
        assert(data@ =~= swapped(old(data)@));
    }
}

} // verus!
