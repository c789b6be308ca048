use vstd::prelude::*;

verus! {

/// The largest side an image can have.
pub open spec fn max_side() -> int {
    0xffff_ffff
}

/// The integer nearest to `a / b`, a half counting upwards.
pub open spec fn nearest_quotient(a: int, b: int) -> int
    recommends
        0 <= a,
        0 < b,
{
    (2 * a + b) / (2 * b)
}

/// A side of at least one pixel and at most `max_side()` pixels.
pub open spec fn clamp_side(v: int) -> int {
    if v < 1 {
        1
    } else if v > max_side() {
        max_side()
    } else {
        v
    }
}

/// Whether the horizontal scale factor `nwidth / width` is the one that
/// governs: the larger of the two factors when filling, the smaller one
/// when fitting inside. The factors are compared exactly, as fractions.
pub open spec fn width_governs(width: int, height: int, nwidth: int, nheight: int, fill: bool) -> bool {
    if fill {
        nwidth * height >= nheight * width
    } else {
        nwidth * height <= nheight * width
    }
}

/// The size to which a `width` by `height` image is scaled for a box of
/// `nwidth` by `nheight`, with its aspect ratio kept.
///
/// Both sides are multiplied by one factor, the governing one of
/// `nwidth / width` and `nheight / height`, rounded to the nearest pixel, and
/// no side falls under one pixel. Where a side would pass `max_side()`, that
/// side is `max_side()` and the other one is scaled by the factor that takes
/// the first side there.
///
/// A source side of zero has no factor of its own. It stays at the minimum of
/// one pixel, and the other side follows its own factor; when filling a box
/// that has room along the zero side, the other side grows without bound and
/// so ends at `max_side()`.
pub open spec fn spec_resize_dimensions(
    width: int,
    height: int,
    nwidth: int,
    nheight: int,
    fill: bool,
) -> (int, int) {
    if width == 0 && height == 0 {
        (1, 1)
    } else if width == 0 {
        if fill && nwidth > 0 {
            (1, max_side())
        } else {
            (1, clamp_side(nheight))
        }
    } else if height == 0 {
        if fill && nheight > 0 {
            (max_side(), 1)
        } else {
            (clamp_side(nwidth), 1)
        }
    } else if width_governs(width, height, nwidth, nheight, fill) {
        let nh = nearest_quotient(height * nwidth, width);
        if nh > max_side() {
            (clamp_side(nearest_quotient(width * max_side(), height)), max_side())
        } else {
            (clamp_side(nwidth), clamp_side(nh))
        }
    } else {
        let nw = nearest_quotient(width * nheight, height);
        if nw > max_side() {
            (max_side(), clamp_side(nearest_quotient(height * max_side(), width)))
        } else {
            (clamp_side(nw), clamp_side(nheight))
        }
    }
}

/// The height that goes with a new `width` when a `raw_width` by
/// `raw_height` image keeps its aspect ratio: `width * raw_height /
/// raw_width`, rounded down and no larger than `max_side()`.
///
/// An image without width has no ratio: a positive width then stretches a
/// positive height without bound, and anything else gives zero.
pub open spec fn spec_scaled_height(width: int, raw_width: int, raw_height: int) -> int {
    if raw_width == 0 {
        if width > 0 && raw_height > 0 {
            max_side()
        } else {
            0
        }
    } else if width * raw_height / raw_width > max_side() {
        max_side()
    } else {
        width * raw_height / raw_width
    }
}

/// The height that goes with a new `width` when the image keeps its aspect
/// ratio.
pub fn scaled_height(width: u32, raw_width: u32, raw_height: u32) -> (out: u32)
    ensures
        out == spec_scaled_height(width as int, raw_width as int, raw_height as int),
{
    if raw_width == 0 {
        return if width > 0 && raw_height > 0 {
            0xffff_ffff
        } else {
            0
        };
    }
    proof {
        lemma_side_product(width as int, raw_height as int);
    }
    let scaled: u64 = (width as u64) * (raw_height as u64) / (raw_width as u64);
    if scaled > 0xffff_ffff {
        0xffff_ffff
    } else {
        scaled as u32
    }
}

/// The product of two sides fits in 64 bits.
pub proof fn lemma_side_product(a: int, b: int)
    by (nonlinear_arith)
    requires
        0 <= a <= 0xffff_ffff,
        0 <= b <= 0xffff_ffff,
    ensures
        0 <= a * b <= 0xffff_fffe_0000_0001,
{
}

/// A quotient by a positive divisor is no larger than the dividend.
proof fn lemma_quotient_bound(a: int, b: int)
    by (nonlinear_arith)
    requires
        0 <= a,
        0 < b,
    ensures
        0 <= a / b <= a,
{
}

/// `len * num / den`, rounded to the nearest integer.
fn scale_side(len: u32, num: u32, den: u32) -> (out: u64)
    requires
        den > 0,
    ensures
        out == nearest_quotient(len * num, den as int),
{
    proof {
        lemma_side_product(len as int, num as int);
    }
    let product: u128 = (len as u128) * (num as u128);
    let doubled: u128 = 2 * product + (den as u128);
    let divisor: u128 = 2 * (den as u128);
    let quotient: u128 = doubled / divisor;
    proof {
        lemma_quotient_bound(2 * product as int, divisor as int);
        lemma_quotient_bound(doubled as int, divisor as int);
        assert(quotient <= product + 1) by (nonlinear_arith)
            requires
                quotient == (2 * product + den) / (2 * den),
                den > 0,
                product >= 0,
        ;
    }
    quotient as u64
}

/// A side count held to the range from one pixel to the largest side.
fn clamp_to_side(v: u64) -> (out: u32)
    ensures
        out == clamp_side(v as int),
{
    if v < 1 {
        1
    } else if v > 0xffff_ffff {
        0xffff_ffff
    } else {
        v as u32
    }
}

/// Calculates the width and height an image should be resized to.
///
/// This preserves aspect ratio, and based on the `fill` parameter will either
/// fill the dimensions to fit inside the smaller constraint (will overflow
/// the specified bounds on one axis to preserve aspect ratio), or will shrink
/// so that both dimensions are completely contained within the given
/// `nwidth` and `nheight`, with empty space on one axis.
pub fn resize_dimensions(width: u32, height: u32, nwidth: u32, nheight: u32, fill: bool) -> (out: (
    u32,
    u32,
))
    ensures
        (out.0 as int, out.1 as int) == spec_resize_dimensions(
            width as int,
            height as int,
            nwidth as int,
            nheight as int,
            fill,
        ),
{
    if width == 0 && height == 0 {
        return (1, 1);
    }
    if width == 0 {
        if fill && nwidth > 0 {
            return (1, 0xffff_ffff);
        }
        return (1, clamp_to_side(nheight as u64));
    }
    if height == 0 {
        if fill && nheight > 0 {
            return (0xffff_ffff, 1);
        }
        return (clamp_to_side(nwidth as u64), 1);
    }
    proof {
        lemma_side_product(nwidth as int, height as int);
        lemma_side_product(nheight as int, width as int);
    }
    let lhs: u64 = (nwidth as u64) * (height as u64);
    let rhs: u64 = (nheight as u64) * (width as u64);
    let by_width = if fill {
        lhs >= rhs
    } else {
        lhs <= rhs
    };
    if by_width {
        let nh = scale_side(height, nwidth, width);
        if nh > 0xffff_ffff {
            (clamp_to_side(scale_side(width, 0xffff_ffff, height)), 0xffff_ffff)
        } else {
            (clamp_to_side(nwidth as u64), clamp_to_side(nh))
        }
    } else {
        let nw = scale_side(width, nheight, height);
        if nw > 0xffff_ffff {
            (0xffff_ffff, clamp_to_side(scale_side(height, 0xffff_ffff, width)))
        } else {
            (clamp_to_side(nw), clamp_to_side(nheight as u64))
        }
    }
}

/// The nearest quotient lies within half a unit of the fraction.
pub proof fn lemma_nearest_quotient(a: int, b: int)
    requires
        0 <= a,
        0 < b,
    ensures
        2 * b * nearest_quotient(a, b) <= 2 * a + b,
        2 * a + b < 2 * b * (nearest_quotient(a, b) + 1),
        0 <= nearest_quotient(a, b),
{
    let q = nearest_quotient(a, b);
    assert(q == (2 * a + b) / (2 * b));
    assert(2 * b * q <= 2 * a + b && 2 * a + b < 2 * b * (q + 1) && 0 <= q) by (nonlinear_arith)
        requires
            q == (2 * a + b) / (2 * b),
            0 <= a,
            0 < b,
    ;
}

/// An image that is fitted inside a box stays within the box and fills it
/// along the axis whose scale factor governs; along the other axis its aspect
/// ratio is kept to within half a pixel, as far as that side is more than the
/// least pixel.
pub proof fn lemma_resize_inside(width: int, height: int, nwidth: int, nheight: int)
    requires
        0 < width <= max_side(),
        0 < height <= max_side(),
        0 < nwidth <= max_side(),
        0 < nheight <= max_side(),
    ensures
        ({
            let out = spec_resize_dimensions(width, height, nwidth, nheight, false);
            &&& 1 <= out.0 <= nwidth
            &&& 1 <= out.1 <= nheight
            &&& width_governs(width, height, nwidth, nheight, false) ==> out.0 == nwidth && (out.1 > 1 ==> -width
                <= 2 * (out.1 * width - height * nwidth) <= width)
            &&& !width_governs(width, height, nwidth, nheight, false) ==> out.1 == nheight && (out.0 > 1 ==> -height
                <= 2 * (out.0 * height - width * nheight) <= height)
        }),
{
    if width_governs(width, height, nwidth, nheight, false) {
        let nh = nearest_quotient(height * nwidth, width);
        assert(0 <= height * nwidth) by (nonlinear_arith)
            requires
                0 < height,
                0 < nwidth,
        ;
        lemma_nearest_quotient(height * nwidth, width);
        assert(nh <= nheight) by (nonlinear_arith)
            requires
                2 * width * nh <= 2 * (height * nwidth) + width,
                nwidth * height <= nheight * width,
                0 < width,
        ;
        assert(2 * width * nh == 2 * (nh * width)) by (nonlinear_arith);
        assert(2 * width * (nh + 1) == 2 * (nh * width) + 2 * width) by (nonlinear_arith);
    } else {
        let nw = nearest_quotient(width * nheight, height);
        assert(0 <= width * nheight) by (nonlinear_arith)
            requires
                0 < width,
                0 < nheight,
        ;
        lemma_nearest_quotient(width * nheight, height);
        assert(nw <= nwidth) by (nonlinear_arith)
            requires
                2 * height * nw <= 2 * (width * nheight) + height,
                nwidth * height > nheight * width,
                0 < height,
        ;
        assert(2 * height * nw == 2 * (nw * height)) by (nonlinear_arith);
        assert(2 * height * (nw + 1) == 2 * (nw * height) + 2 * height) by (nonlinear_arith);
    }
}

/// An image that is scaled to cover a box covers it: unless a side reaches
/// the largest side, no side of the result is smaller than the box asks for,
/// and one of them is exactly as the box asks.
pub proof fn lemma_resize_cover(width: int, height: int, nwidth: int, nheight: int)
    requires
        0 < width <= max_side(),
        0 < height <= max_side(),
        0 < nwidth <= max_side(),
        0 < nheight <= max_side(),
    ensures
        ({
            let out = spec_resize_dimensions(width, height, nwidth, nheight, true);
            &&& 1 <= out.0 <= max_side()
            &&& 1 <= out.1 <= max_side()
            &&& out.0 < max_side() && out.1 < max_side() ==> {
                &&& out.0 >= nwidth
                &&& out.1 >= nheight
                &&& out.0 == nwidth || out.1 == nheight
            }
        }),
{
    if width_governs(width, height, nwidth, nheight, true) {
        let nh = nearest_quotient(height * nwidth, width);
        assert(0 <= height * nwidth) by (nonlinear_arith)
            requires
                0 < height,
                0 < nwidth,
        ;
        lemma_nearest_quotient(height * nwidth, width);
        assert(nh >= nheight) by (nonlinear_arith)
            requires
                2 * (height * nwidth) + width < 2 * width * (nh + 1),
                nwidth * height >= nheight * width,
                0 < width,
        ;
    } else {
        let nw = nearest_quotient(width * nheight, height);
        assert(0 <= width * nheight) by (nonlinear_arith)
            requires
                0 < width,
                0 < nheight,
        ;
        lemma_nearest_quotient(width * nheight, height);
        assert(nw >= nwidth) by (nonlinear_arith)
            requires
                2 * (width * nheight) + height < 2 * height * (nw + 1),
                nwidth * height < nheight * width,
                0 < height,
        ;
    }
}

/// A box with the aspect ratio of the image is filled exactly, whichever way
/// the image is fitted: a resize to half of each side of an image with even
/// sides gives those halves.
pub proof fn lemma_resize_same_ratio(width: int, height: int, nwidth: int, nheight: int, fill: bool)
    requires
        0 < width <= max_side(),
        0 < height <= max_side(),
        0 < nwidth <= max_side(),
        0 < nheight <= max_side(),
        nwidth * height == nheight * width,
    ensures
        spec_resize_dimensions(width, height, nwidth, nheight, fill) == (nwidth, nheight),
{
    assert(0 <= height * nwidth) by (nonlinear_arith)
        requires
            0 < height,
            0 < nwidth,
    ;
    lemma_nearest_quotient(height * nwidth, width);
    let nh = nearest_quotient(height * nwidth, width);
    assert(nh == nheight) by (nonlinear_arith)
        requires
            2 * width * nh <= 2 * (height * nwidth) + width,
            2 * (height * nwidth) + width < 2 * width * (nh + 1),
            nwidth * height == nheight * width,
            0 < width,
    ;
}

/// A copy of the bytes.
pub fn copy_bytes(bytes: &[u8]) -> (out: Vec<u8>)
    ensures
        out@ == bytes@,
{
    let mut out: Vec<u8> = Vec::new();
    let mut i: usize = 0;
    while i < bytes.len()
        invariant
            i <= bytes.len(),
            out@ == bytes@.take(i as int),
        decreases bytes.len() - i,
    {
        out.push(bytes[i]);
        assert(bytes@.take(i + 1) == bytes@.take(i as int).push(bytes@[i as int]));
        i += 1;
    }
    assert(bytes@.take(bytes.len() as int) == bytes@);
    out
}

} // verus!
