//! Integer geometry of the two pixel transforms: scaling a rectangle to fit a
//! bounding box, and telling which pixels of a square lie outside its inscribed
//! circle.

use vstd::prelude::*;

verus! {

/// The larger of two numbers.
pub open spec fn larger(a: int, b: int) -> int {
    if a >= b {
        a
    } else {
        b
    }
}

/// One side of a `width * height` rectangle after it is scaled so that its
/// larger side becomes `bound`: `floor(side * bound / max(width, height))`.
/// A rectangle without area scales to nothing.
pub open spec fn scaled_side(side: int, width: int, height: int, bound: int) -> int {
    if larger(width, height) == 0 {
        0
    } else {
        (side * bound) / larger(width, height)
    }
}

/// A scaled side never exceeds the bound.
pub proof fn lemma_scaled_side_bounded(side: int, width: int, height: int, bound: int)
    requires
        0 <= side <= larger(width, height),
        0 <= bound,
    ensures
        0 <= scaled_side(side, width, height, bound) <= bound,
{
    let m = larger(width, height);
    if m != 0 {
        assert(0 <= (side * bound) / m <= bound) by (nonlinear_arith)
            requires
                0 <= side <= m,
                0 < m,
                0 <= bound,
        ;
    }
}

/// The larger side of a scaled rectangle is exactly the bound.
pub proof fn lemma_scaled_larger_side_is_bound(width: int, height: int, bound: int)
    requires
        0 <= width,
        0 <= height,
        0 < larger(width, height),
        0 <= bound,
    ensures
        scaled_side(larger(width, height), width, height, bound) == bound,
{
    let m = larger(width, height);
    assert((m * bound) / m == bound) by (nonlinear_arith)
        requires
            0 < m,
    ;
}

/// Scales `(width, height)` so that the larger side becomes `new_largest_dim`
/// and the other side keeps the proportion, rounded down.
pub fn scale_dims(dims: (u32, u32), new_largest_dim: u32) -> (scaled: (u32, u32))
    ensures
        scaled.0 == scaled_side(dims.0 as int, dims.0 as int, dims.1 as int, new_largest_dim as int),
        scaled.1 == scaled_side(dims.1 as int, dims.0 as int, dims.1 as int, new_largest_dim as int),
{
    let (width, height) = dims;
    let largest: u32 = if width >= height {
        width
    } else {
        height
    };
    if largest == 0 {
        return (0, 0);
    }
    proof {
        lemma_scaled_side_bounded(width as int, width as int, height as int, new_largest_dim as int);
        lemma_scaled_side_bounded(
            height as int,
            width as int,
            height as int,
            new_largest_dim as int,
        );
        assert(width * new_largest_dim <= u64::MAX) by (nonlinear_arith)
            requires
                width <= u32::MAX,
                new_largest_dim <= u32::MAX,
        ;
        assert(height * new_largest_dim <= u64::MAX) by (nonlinear_arith)
            requires
                height <= u32::MAX,
                new_largest_dim <= u32::MAX,
        ;
    }
    let w: u64 = (width as u64 * new_largest_dim as u64) / largest as u64;
    let h: u64 = (height as u64 * new_largest_dim as u64) / largest as u64;
    (w as u32, h as u32)
}

/// Half of `n`, rounded toward zero.
pub open spec fn half(n: int) -> int {
    if n >= 0 {
        n / 2
    } else {
        -((-n) / 2)
    }
}

/// Coordinates of the point in column `x`, row `y` of a `width * height`
/// image, seen from the centre of the image, with the vertical axis pointing
/// up.
pub open spec fn cartesian(x: int, y: int, width: int, height: int) -> (int, int) {
    (x - half(width), half(height) - y)
}

/// Moves image coordinates, whose rows grow downward, into the cartesian
/// system whose origin is the centre of the image and whose rows grow upward.
pub fn to_cartesian(x: i32, y: i32, width: i32, height: i32) -> (p: (i32, i32))
    requires
        i32::MIN <= x - half(width as int) <= i32::MAX,
        i32::MIN <= half(height as int) - y <= i32::MAX,
    ensures
        (p.0 as int, p.1 as int) == cartesian(x as int, y as int, width as int, height as int),
{
    let w_mid: i32 = width / 2;
    let h_mid: i32 = height / 2;
    (x - w_mid, h_mid - y)
}

} // verus!
