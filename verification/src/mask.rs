//! The circular mask: every pixel of a square image that lies outside the
//! inscribed circle becomes fully transparent.

use crate::geometry::{cartesian, to_cartesian};
use crate::pixels::{lemma_offset_in_bounds, PixelBuffer, PixelGrid};
use vstd::prelude::*;

verus! {

/// Whether the pixel in column `x`, row `y` of an `n * n` image is farther
/// from the centre than half the side: with `d` for the distance,
/// `d > n / 2`, which is `4 * d * d > n * n`.
pub open spec fn outside_circle(x: int, y: int, n: int) -> bool {
    let p = cartesian(x, y, n, n);
    4 * (p.0 * p.0 + p.1 * p.1) > n * n
}

/// Whether byte `i` of a grid that is `width` pixels wide is the alpha channel
/// of a pixel outside the circle inscribed in an `n * n` square.
pub open spec fn is_masked_alpha(width: int, n: int, i: int) -> bool {
    i % 4 == 3 && outside_circle((i / 4) % width, (i / 4) / width, n)
}

/// The grid `g` with the alpha channel of every pixel outside the circle set
/// to zero, and every other byte as it was.
pub open spec fn circle_masked(g: PixelGrid, n: int) -> PixelGrid {
    PixelGrid {
        width: g.width,
        height: g.height,
        bytes: Seq::new(
            g.bytes.len(),
            |i: int|
                if is_masked_alpha(g.width as int, n, i) {
                    0u8
                } else {
                    g.bytes[i]
                },
        ),
    }
}

/// The side of a well-formed square grid fits a signed 32-bit coordinate.
pub proof fn lemma_square_side_bounded(g: PixelGrid, n: int)
    requires
        g.wf(),
        g.width == n,
        g.height == n,
        g.bytes.len() <= usize::MAX,
    ensures
        n <= i32::MAX,
{
    if n > i32::MAX {
        assert(4 * n * n >= 0x1_0000_0000_0000_0000) by (nonlinear_arith)
            requires
                n >= 0x8000_0000,
        ;
    }
}

/// Whether the pixel in column `x`, row `y` lies outside the circle inscribed
/// in a `dim * dim` square.
pub fn lies_outside(x: u32, y: u32, dim: u32) -> (r: bool)
    requires
        x < dim,
        y < dim,
        dim <= i32::MAX,
    ensures
        r == outside_circle(x as int, y as int, dim as int),
{
    let (x_cart, y_cart) = to_cartesian(x as i32, y as i32, dim as i32, dim as i32);
    let xc: i64 = x_cart as i64;
    let yc: i64 = y_cart as i64;
    let side: u128 = dim as u128;
    proof {
        lemma_square_bounded(xc as int);
        lemma_square_bounded(yc as int);
        lemma_square_bounded(dim as int);
    }
    let x2: u128 = (xc * xc) as u128;
    let y2: u128 = (yc * yc) as u128;
    4 * (x2 + y2) > side * side
}

/// The square of a number of at most 31 bits has at most 62.
pub proof fn lemma_square_bounded(a: int)
    requires
        -0x7fff_ffff <= a <= 0x7fff_ffff,
    ensures
        0 <= a * a <= 0x3fff_ffff_0000_0001,
{
    assert(0 <= a * a <= 0x3fff_ffff_0000_0001) by (nonlinear_arith)
        requires
            -0x7fff_ffff <= a <= 0x7fff_ffff,
    ;
}

/// Masks a `dim * dim` image to its inscribed circle: the alpha channel of
/// every pixel outside the circle becomes zero, and nothing else changes.
pub fn circlize_frame(img: &mut PixelBuffer, dim: u32)
    requires
        old(img).wf(),
        old(img)@.width == dim,
        old(img)@.height == dim,
    ensures
        final(img).wf(),
        final(img)@ == circle_masked(old(img)@, dim as int),
        forall|x: int, y: int|
            0 <= x < dim && 0 <= y < dim ==> #[trigger] final(img)@.channel(x, y, 3) == (if outside_circle(
                x,
                y,
                dim as int,
            ) {
                0u8
            } else {
                old(img)@.channel(x, y, 3)
            }),
        forall|x: int, y: int, c: int|
            0 <= x < dim && 0 <= y < dim && 0 <= c < 3 ==> #[trigger] final(img)@.channel(x, y, c)
                == old(img)@.channel(x, y, c),
{
    let ghost before = img@;
    let total: usize = img.as_raw().len() / 4;
    proof {
        lemma_square_side_bounded(before, dim as int);
        assert(4 * dim * dim == 4 * (dim * dim)) by (nonlinear_arith);
    }
    let mut k: usize = 0;
    while k < total
        invariant
            img.wf(),
            before.wf(),
            dim <= i32::MAX,
            img@.width == dim,
            img@.height == dim,
            before.width == dim,
            before.height == dim,
            img@.bytes.len() == before.bytes.len(),
            total == dim * dim,
            before.bytes.len() == 4 * total,
            k <= total,
            forall|i: int|
                0 <= i < before.bytes.len() ==> #[trigger] img@.bytes[i] == (if i / 4 < k {
                    circle_masked(before, dim as int).bytes[i]
                } else {
                    before.bytes[i]
                }),
        decreases total - k,
    {
        proof {
            lemma_index_splits(k as int, dim as int);
        }
        let x: u32 = (k % dim as usize) as u32;
        let y: u32 = (k / dim as usize) as u32;
        let ghost earlier = img@;
        if lies_outside(x, y, dim) {
            img.set_alpha(x, y, 0);
        }
        proof {
            let at = 4 * k + 3;
            let masked = circle_masked(before, dim as int);
            assert(is_masked_alpha(dim as int, dim as int, at) == outside_circle(
                x as int,
                y as int,
                dim as int,
            ));
            assert forall|i: int| 0 <= i < before.bytes.len() implies #[trigger] img@.bytes[i] == (if i
                / 4 < k + 1 {
                masked.bytes[i]
            } else {
                before.bytes[i]
            }) by {
                assert(earlier.bytes[i] == (if i / 4 < k {
                    masked.bytes[i]
                } else {
                    before.bytes[i]
                }));
            }
        }
        k = k + 1;
    }
    proof {
        assert(img@.bytes =~= circle_masked(before, dim as int).bytes);
        lemma_masked_channels(before, dim as int);
    }
}

/// A pixel index below `n * n` splits into a row and a column below `n`.
pub proof fn lemma_index_splits(k: int, n: int)
    requires
        0 <= n,
        0 <= k < n * n,
    ensures
        0 < n,
        0 <= k % n < n,
        0 <= k / n < n,
        (k / n) * n + k % n == k,
{
    assert(0 < n) by (nonlinear_arith)
        requires
            0 <= n,
            0 <= k < n * n,
    ;
    vstd::arithmetic::div_mod::lemma_fundamental_div_mod(k, n);
    vstd::arithmetic::div_mod::lemma_mod_bound(k, n);
    assert(0 <= k / n < n) by (nonlinear_arith)
        requires
            0 < n,
            0 <= k < n * n,
            k == n * (k / n) + k % n,
            0 <= k % n < n,
    ;
    assert((k / n) * n == n * (k / n)) by (nonlinear_arith);
}

/// The pixel in column `x`, row `y` has index `y * n + x`, which splits back
/// into `x` and `y`.
pub proof fn lemma_index_joins(x: int, y: int, n: int)
    requires
        0 <= x < n,
        0 <= y,
    ensures
        (y * n + x) % n == x,
        (y * n + x) / n == y,
{
    vstd::arithmetic::div_mod::lemma_fundamental_div_mod_converse(y * n + x, n, y, x);
}

/// Pixel by pixel, the mask clears the alpha channel outside the circle and
/// keeps every other channel.
pub proof fn lemma_masked_channels(g: PixelGrid, n: int)
    requires
        g.wf(),
        g.width == n,
        g.height == n,
    ensures
        circle_masked(g, n).wf(),
        forall|x: int, y: int|
            0 <= x < n && 0 <= y < n ==> #[trigger] circle_masked(g, n).channel(x, y, 3) == (if outside_circle(
                x,
                y,
                n,
            ) {
                0u8
            } else {
                g.channel(x, y, 3)
            }),
        forall|x: int, y: int, c: int|
            0 <= x < n && 0 <= y < n && 0 <= c < 3 ==> #[trigger] circle_masked(g, n).channel(x, y, c)
                == g.channel(x, y, c),
{
    let m = circle_masked(g, n);
    assert forall|x: int, y: int, c: int| 0 <= x < n && 0 <= y < n && 0 <= c < 4 implies #[trigger] m.channel(
        x,
        y,
        c,
    ) == (if c == 3 && outside_circle(x, y, n) {
        0u8
    } else {
        g.channel(x, y, c)
    }) by {
        lemma_offset_in_bounds(g, x, y, c);
        lemma_index_joins(x, y, n);
    }
}

/// Masking is idempotent: a second pass over a masked grid changes nothing.
/// Pixels that were cleared stay cleared, and pixels inside the circle keep
/// what the first pass left them.
pub proof fn lemma_mask_idempotent(g: PixelGrid, n: int)
    ensures
        circle_masked(circle_masked(g, n), n) == circle_masked(g, n),
{
    let once = circle_masked(g, n);
    let twice = circle_masked(once, n);
    assert(twice.bytes =~= once.bytes);
}

} // verus!
