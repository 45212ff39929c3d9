//! Vertical flipping of pixel buffers.
//!
//! OpenGL returns the rows of a framebuffer bottom row first; Pathfinder
//! wants them top row first. A buffer of `height` rows of `stride` elements
//! is flipped by exchanging row `r` with row `height - 1 - r`.

use vstd::prelude::*;
use crate::types::Vector2I;

verus! {

/// The position of element `c` of row `r` in a buffer of rows of `stride`
/// elements.
pub open spec fn row_index(r: int, c: int, stride: int) -> int {
    r * stride + c
}

/// `new` is `old` with its first `height` rows of `stride` elements in the
/// opposite order, and everything after them unchanged.
pub open spec fn rows_flipped<T>(new: Seq<T>, old: Seq<T>, height: int, stride: int) -> bool {
    &&& new.len() == old.len()
    &&& forall|r: int, c: int|
        #![trigger new[row_index(r, c, stride)]]
        0 <= r < height && 0 <= c < stride ==> new[row_index(r, c, stride)] == old[row_index(
            height - 1 - r,
            c,
            stride,
        )]
    &&& forall|i: int| height * stride <= i < new.len() ==> new[i] == old[i]
}

/// The row stride, in elements, of an image of `size` with `channels`
/// elements per pixel.
pub open spec fn image_stride(size: Vector2I, channels: usize) -> int {
    (size.x as usize) * channels
}

/// The number of rows of an image of `size`.
pub open spec fn image_height(size: Vector2I) -> int {
    (size.y as usize) as int
}

/// Two positions within rows of `stride` elements are the same only if they
/// are in the same row and the same column.
pub proof fn lemma_row_index_unique(r1: int, c1: int, r2: int, c2: int, stride: int)
    requires
        0 <= c1 < stride,
        0 <= c2 < stride,
        row_index(r1, c1, stride) == row_index(r2, c2, stride),
    ensures
        r1 == r2,
        c1 == c2,
{
    assert((r1 - r2) * stride == c2 - c1) by (nonlinear_arith)
        requires
            r1 * stride + c1 == r2 * stride + c2,
    ;
    if r1 > r2 {
        assert((r1 - r2) * stride >= stride) by (nonlinear_arith)
            requires
                r1 - r2 >= 1,
                stride > 0,
        ;
    } else if r1 < r2 {
        assert((r2 - r1) * stride >= stride) by (nonlinear_arith)
            requires
                r2 - r1 >= 1,
                stride > 0,
        ;
        assert((r1 - r2) * stride == -((r2 - r1) * stride)) by (nonlinear_arith);
    }
}

/// A position within the first `height` rows is strictly before
/// `height * stride`, and lies within row `r` when it is `row_index(r, c)`.
pub proof fn lemma_row_index_bounds(r: int, c: int, height: int, stride: int)
    requires
        0 <= r < height,
        0 <= c < stride,
    ensures
        0 <= r * stride <= row_index(r, c, stride) < (r + 1) * stride <= height * stride,
{
    assert(0 <= r * stride) by (nonlinear_arith)
        requires
            0 <= r,
            0 <= c < stride,
    ;
    assert((r + 1) * stride <= height * stride) by (nonlinear_arith)
        requires
            r + 1 <= height,
            0 <= c < stride,
    ;
    assert((r + 1) * stride == r * stride + stride) by (nonlinear_arith);
}

/// Every position within the first `height` rows is `row_index(r, c)` for
/// some row `r < height` and column `c < stride`.
pub proof fn lemma_row_index_cover(i: int, height: int, stride: int)
    requires
        0 <= i < height * stride,
        stride > 0,
    ensures
        0 <= i / stride < height,
        0 <= i % stride < stride,
        i == row_index(i / stride, i % stride, stride),
{
    let r = i / stride;
    let c = i % stride;
    assert(i == r * stride + c && 0 <= c < stride) by (nonlinear_arith)
        requires
            stride > 0,
            r == i / stride,
            c == i % stride,
    ;
    assert(0 <= r) by (nonlinear_arith)
        requires
            stride > 0,
            i >= 0,
            r == i / stride,
    ;
    if r >= height {
        assert(r * stride >= height * stride) by (nonlinear_arith)
            requires
                r >= height,
                stride > 0,
        ;
    }
}

/// Flipping the rows of a buffer twice gives the buffer back.
pub proof fn lemma_rows_flipped_twice<T>(a: Seq<T>, b: Seq<T>, c: Seq<T>, height: int, stride: int)
    requires
        rows_flipped(b, a, height, stride),
        rows_flipped(c, b, height, stride),
        0 <= height,
        0 <= stride,
    ensures
        c == a,
{
    assert forall|i: int| 0 <= i < a.len() implies c[i] == a[i] by {
        if i < height * stride {
            if stride > 0 {
                lemma_row_index_cover(i, height, stride);
                let r = i / stride;
                let col = i % stride;
                assert(c[row_index(r, col, stride)] == b[row_index(height - 1 - r, col, stride)]);
                assert(b[row_index(height - 1 - r, col, stride)] == a[row_index(
                    height - 1 - (height - 1 - r),
                    col,
                    stride,
                )]);
            } else {
                assert(height * stride == 0) by (nonlinear_arith)
                    requires
                        stride == 0,
                ;
            }
        }
    }
    assert(c =~= a);
}

/// Flipping is its own inverse: if `b` is `a` flipped, then `a` is `b`
/// flipped.
pub proof fn lemma_rows_flipped_symmetric<T>(a: Seq<T>, b: Seq<T>, height: int, stride: int)
    requires
        rows_flipped(b, a, height, stride),
    ensures
        rows_flipped(a, b, height, stride),
{
    assert forall|r: int, c: int| 0 <= r < height && 0 <= c < stride implies a[row_index(
        r,
        c,
        stride,
    )] == b[row_index(height - 1 - r, c, stride)] by {
        assert(b[row_index(height - 1 - r, c, stride)] == a[row_index(
            height - 1 - (height - 1 - r),
            c,
            stride,
        )]);
    }
}

/// `new` is the image `old` of `size`, with `channels` elements per pixel,
/// turned upside down: with fewer than two rows nothing moves.
pub open spec fn flipped_vertically<T>(new: Seq<T>, old: Seq<T>, size: Vector2I, channels: usize) -> bool {
    if image_height(size) < 2 {
        new == old
    } else {
        rows_flipped(new, old, image_height(size), image_stride(size, channels))
    }
}

/// Turning an image upside down twice gives it back.
pub proof fn lemma_flip_y_twice<T>(
    a: Seq<T>,
    b: Seq<T>,
    c: Seq<T>,
    size: Vector2I,
    channels: usize,
)
    requires
        flipped_vertically(b, a, size, channels),
        flipped_vertically(c, b, size, channels),
    ensures
        c == a,
{
    if image_height(size) >= 2 {
        lemma_rows_flipped_twice(a, b, c, image_height(size), image_stride(size, channels));
    }
}

/// Flips a buffer of image data upside-down: the first `size.y` rows of
/// `size.x * channels` elements each are put in the opposite order.
pub fn flip_y<T: Copy>(pixels: &mut [T], size: Vector2I, channels: usize)
    requires
        image_stride(size, channels) <= usize::MAX,
        image_height(size) < 2 || image_height(size) * image_stride(size, channels) <= old(
            pixels,
        )@.len(),
    ensures
        flipped_vertically(final(pixels)@, old(pixels)@, size, channels),
{
    let stride = size.x() as usize * channels;
    let height = size.y() as usize;
    let len = pixels.len();
    let ghost old_px = pixels@;
    let ghost h = height as int;
    let ghost s = stride as int;
    let mut y: usize = 0;
    while y < height / 2
        invariant
            stride as int == image_stride(size, channels),
            height as int == image_height(size),
            h == height,
            s == stride,
            h >= 2 ==> h * s <= old_px.len(),
            pixels@.len() == old_px.len(),
            old_px.len() == len,
            y <= height / 2,
            y == 0 ==> pixels@ == old_px,
            forall|r: int, c: int|
                #![trigger pixels@[row_index(r, c, s)]]
                0 <= r < h && 0 <= c < s ==> pixels@[row_index(r, c, s)] == if r < y || r >= h
                    - y {
                    old_px[row_index(h - 1 - r, c, s)]
                } else {
                    old_px[row_index(r, c, s)]
                },
            forall|i: int| h * s <= i < pixels@.len() ==> pixels@[i] == old_px[i],
        decreases height / 2 - y,
    {
        let ghost yy = y as int;
        proof {
            assert(yy + 1 <= h - yy - 1);
            assert(yy * s <= (h - yy - 1) * s) by (nonlinear_arith)
                requires
                    0 <= yy,
                    yy <= h - yy - 1,
                    0 <= s,
            ;
            assert((h - yy - 1) * s + s <= h * s) by (nonlinear_arith)
                requires
                    0 <= yy,
                    yy + 1 <= h,
                    0 <= s,
            ;
            assert(0 <= yy * s) by (nonlinear_arith)
                requires
                    0 <= yy,
                    0 <= s,
            ;
        }
        let index_a = y * stride;
        let index_b = (height - y - 1) * stride;
        let ghost before = pixels@;
        let mut offset: usize = 0;
        while offset < stride
            invariant
                h == height,
                s == stride,
                h >= 2,
                h * s <= old_px.len(),
                0 <= yy < h - 1 - yy,
                yy == y,
                index_a == yy * s,
                index_b == (h - yy - 1) * s,
                index_a <= index_b,
                index_b + s <= h * s,
                offset <= stride,
                pixels@.len() == old_px.len(),
                old_px.len() == len,
                forall|r: int, c: int|
                    #![trigger pixels@[row_index(r, c, s)]]
                    0 <= r < h && 0 <= c < s ==> pixels@[row_index(r, c, s)] == if r < yy || r
                        >= h - yy || ((r == yy || r == h - 1 - yy) && c < offset) {
                        old_px[row_index(h - 1 - r, c, s)]
                    } else {
                        old_px[row_index(r, c, s)]
                    },
                forall|i: int| h * s <= i < pixels@.len() ==> pixels@[i] == old_px[i],
            decreases stride - offset,
        {
            let ghost off = offset as int;
            let ghost ia = row_index(yy, off, s);
            let ghost ib = row_index(h - 1 - yy, off, s);
            proof {
                lemma_row_index_bounds(yy, off, h, s);
                lemma_row_index_bounds(h - 1 - yy, off, h, s);
                assert(ia == index_a + offset);
                assert(ib == index_b + offset);
                assert(pixels@[ia] == old_px[row_index(yy, off, s)]);
                assert(pixels@[ib] == old_px[row_index(h - 1 - yy, off, s)]);
            }
            let ghost mid = pixels@;
            let a = pixels[index_a + offset];
            let b = pixels[index_b + offset];
            pixels[index_a + offset] = b;
            pixels[index_b + offset] = a;
            proof {
                assert forall|r: int, c: int| 0 <= r < h && 0 <= c < s implies #[trigger] pixels@[row_index(
                    r,
                    c,
                    s,
                )] == if r < yy || r >= h - yy || ((r == yy || r == h - 1 - yy) && c < off + 1) {
                    old_px[row_index(h - 1 - r, c, s)]
                } else {
                    old_px[row_index(r, c, s)]
                } by {
                    let p = row_index(r, c, s);
                    lemma_row_index_bounds(r, c, h, s);
                    if p == ia {
                        lemma_row_index_unique(r, c, yy, off, s);
                    } else if p == ib {
                        lemma_row_index_unique(r, c, h - 1 - yy, off, s);
                    } else {
                        assert(pixels@[p] == mid[p]);
                        if r == yy && c == off {
                            assert(false);
                        }
                        if r == h - 1 - yy && c == off {
                            assert(false);
                        }
                    }
                }
            }
            offset += 1;
        }
        y += 1;
    }
    proof {
        if h >= 2 {
            assert forall|r: int, c: int| 0 <= r < h && 0 <= c < s implies #[trigger] pixels@[row_index(
                r,
                c,
                s,
            )] == old_px[row_index(h - 1 - r, c, s)] by {
                if !(r < y || r >= h - y) {
                    // The middle row of an odd number of rows is its own mirror.
                    assert(r == h - 1 - r);
                }
            }
        }
    }
}

} // verus!
