//! What mirroring, turning and cropping do to the bytes of an image: every
//! pixel of the result is one pixel of the source, bytes and all.
//!
//! Every image has a layout. A description without one stands for no image,
//! and each of the functions here leaves it as it is.
use crate::raster::crop_window;
use crate::raster::Raster;
use crate::transformer::JsColorType;
use vstd::arithmetic::div_mod::lemma_fundamental_div_mod;
use vstd::arithmetic::div_mod::lemma_fundamental_div_mod_converse;
use vstd::arithmetic::div_mod::lemma_mod_bound;
use vstd::prelude::*;

verus! {

/// The bytes that one pixel takes in a layout.
pub open spec fn bytes_per_pixel(layout: JsColorType) -> int {
    match layout {
        JsColorType::L8 => 1,
        JsColorType::La8 => 2,
        JsColorType::Rgb8 => 3,
        JsColorType::Rgba8 => 4,
        JsColorType::L16 => 2,
        JsColorType::La16 => 4,
        JsColorType::Rgb16 => 6,
        JsColorType::Rgba16 => 8,
        JsColorType::Rgb32F => 12,
        JsColorType::Rgba32F => 16,
    }
}

/// The pixel container holds the pixels and nothing more.
pub open spec fn container_is_exact(r: Raster) -> bool {
    match r.layout {
        Some(layout) => r.bytes.len() == r.width * r.height * bytes_per_pixel(layout),
        None => false,
    }
}

/// The place in the pixel container of byte `c` of the pixel (`x`, `y`), in
/// an image of `width` pixels a row and `size` bytes a pixel.
pub open spec fn byte_index(width: int, size: int, x: int, y: int, c: int) -> int {
    (y * width + x) * size + c
}

/// The byte at place `i` of an image of `width` pixels a row whose pixel
/// (x, y) is the pixel `from(x, y)` of `src`.
pub open spec fn rearranged_byte(src: Raster, size: int, width: int, from: spec_fn(int, int) -> (int, int), i: int) -> u8 {
    let pixel = i / size;
    let at = from(pixel % width, pixel / width);
    src.bytes[byte_index(src.width, size, at.0, at.1, i % size)]
}

/// The image of `width` by `height` pixels of `size` bytes each whose pixel
/// (x, y) is the pixel `from(x, y)` of `src`, with the layout and the color
/// space of `src`.
pub open spec fn rearranged(src: Raster, size: int, width: int, height: int, from: spec_fn(int, int) -> (int, int)) -> Raster {
    Raster {
        width,
        height,
        layout: src.layout,
        space: src.space,
        bytes: Seq::new((width * height * size) as nat, |i: int| rearranged_byte(src, size, width, from, i)),
    }
}

/// The mirror image: the pixel (x, y) is the pixel (width - 1 - x, y) of the
/// source.
pub open spec fn mirrored(r: Raster) -> Raster {
    match r.layout {
        Some(layout) => rearranged(r, bytes_per_pixel(layout), r.width, r.height, |x: int, y: int| (r.width - 1 - x, y)),
        None => r,
    }
}

/// The image upside down: the pixel (x, y) is the pixel (x, height - 1 - y)
/// of the source.
pub open spec fn upended(r: Raster) -> Raster {
    match r.layout {
        Some(layout) => rearranged(r, bytes_per_pixel(layout), r.width, r.height, |x: int, y: int| (x, r.height - 1 - y)),
        None => r,
    }
}

/// The image turned a quarter clockwise: width and height are exchanged, and
/// the pixel (x, y) is the pixel (y, height - 1 - x) of the source.
pub open spec fn quarter_turned(r: Raster) -> Raster {
    match r.layout {
        Some(layout) => rearranged(r, bytes_per_pixel(layout), r.height, r.width, |x: int, y: int| (y, r.height - 1 - x)),
        None => r,
    }
}

/// The image turned by a half: the pixel (x, y) is the pixel
/// (width - 1 - x, height - 1 - y) of the source.
pub open spec fn half_turned(r: Raster) -> Raster {
    match r.layout {
        Some(layout) => rearranged(
            r,
            bytes_per_pixel(layout),
            r.width,
            r.height,
            |x: int, y: int| (r.width - 1 - x, r.height - 1 - y),
        ),
        None => r,
    }
}

/// The image turned three quarters clockwise: width and height are
/// exchanged, and the pixel (x, y) is the pixel (width - 1 - y, x) of the
/// source.
pub open spec fn three_quarter_turned(r: Raster) -> Raster {
    match r.layout {
        Some(layout) => rearranged(r, bytes_per_pixel(layout), r.height, r.width, |x: int, y: int| (r.width - 1 - y, x)),
        None => r,
    }
}

/// The corner from which a crop is cut: the corner that is asked for, moved
/// to the edge of the image where it lies outside.
pub open spec fn crop_corner(width: int, height: int, x: int, y: int) -> (int, int) {
    (if x < width { x } else { width }, if y < height { y } else { height })
}

/// The rectangle cut out of an image: the pixel (i, j) is the pixel
/// (x + i, y + j) of the source, with the rectangle cut to what the image
/// holds.
pub open spec fn cut_out(r: Raster, x: u32, y: u32, width: u32, height: u32) -> Raster {
    match r.layout {
        Some(layout) => {
            let window = crop_window(r.width, r.height, x as int, y as int, width as int, height as int);
            let corner = crop_corner(r.width, r.height, x as int, y as int);
            rearranged(r, bytes_per_pixel(layout), window.0, window.1, |i: int, j: int| (corner.0 + i, corner.1 + j))
        },
        None => r,
    }
}

/// The bytes of the pixel (`x`, `y`), in an image of `size` bytes a pixel.
pub open spec fn pixel_of(r: Raster, size: int, x: int, y: int) -> Seq<u8> {
    r.bytes.subrange(byte_index(r.width, size, x, y, 0), byte_index(r.width, size, x, y, 0) + size)
}

/// Whether the pixel (`px`, `py`) lies under an image of the size of `top`
/// whose upper left corner is at (`x`, `y`).
pub open spec fn lies_under(top: Raster, x: i64, y: i64, px: int, py: int) -> bool {
    x <= px < x + top.width && y <= py < y + top.height
}

/// `out` can be `bottom` with `top` laid over it at (`x`, `y`): size, layout,
/// color space and the length of the pixel container are those of `bottom`,
/// and so is every pixel that does not lie under `top`. Where both images
/// are 8-bit RGBA, a pixel under an opaque pixel of `top` is that pixel, and
/// a pixel under a wholly transparent one stays as it was.
pub open spec fn laid_over(bottom: Raster, top: Raster, x: i64, y: i64, out: Raster) -> bool {
    &&& out.width == bottom.width
    &&& out.height == bottom.height
    &&& out.layout == bottom.layout
    &&& out.space == bottom.space
    &&& out.bytes.len() == bottom.bytes.len()
    &&& bottom.layout matches Some(layout) ==> forall|px: int, py: int|
        0 <= px < bottom.width && 0 <= py < bottom.height && !lies_under(top, x, y, px, py) ==> #[trigger] pixel_of(
            out,
            bytes_per_pixel(layout),
            px,
            py,
        ) == pixel_of(bottom, bytes_per_pixel(layout), px, py)
    &&& bottom.layout == Some(JsColorType::Rgba8) && top.layout == Some(JsColorType::Rgba8) ==> forall|
        px: int,
        py: int,
    |
        0 <= px < bottom.width && 0 <= py < bottom.height && lies_under(top, x, y, px, py) ==> {
            let above = pixel_of(top, 4, px - x, py - y);
            &&& above[3] == 255 ==> #[trigger] pixel_of(out, 4, px, py) == above
            &&& above[3] == 0 ==> pixel_of(out, 4, px, py) == pixel_of(bottom, 4, px, py)
        }
}

/// An opaque image that is laid over another is seen in full, and nothing
/// else changes: where both are 8-bit RGBA and every pixel of the upper image
/// is opaque, every pixel of the result that lies under the upper image is
/// the pixel of the upper image, and every other one is as it was.
pub proof fn lemma_opaque_overlay(bottom: Raster, top: Raster, x: i64, y: i64, out: Raster, px: int, py: int)
    requires
        laid_over(bottom, top, x, y, out),
        bottom.layout == Some(JsColorType::Rgba8),
        top.layout == Some(JsColorType::Rgba8),
        forall|i: int, j: int| 0 <= i < top.width && 0 <= j < top.height ==> (#[trigger] pixel_of(top, 4, i, j))[3] == 255,
        0 <= px < bottom.width,
        0 <= py < bottom.height,
    ensures
        pixel_of(out, 4, px, py) == if lies_under(top, x, y, px, py) {
            pixel_of(top, 4, px - x, py - y)
        } else {
            pixel_of(bottom, 4, px, py)
        },
{
    if lies_under(top, x, y, px, py) {
        assert(pixel_of(top, 4, px - x, py - y)[3] == 255);
        assert(pixel_of(out, 4, px, py) == pixel_of(top, 4, px - x, py - y));
    } else {
        assert(pixel_of(out, 4, px, py) == pixel_of(bottom, bytes_per_pixel(JsColorType::Rgba8), px, py));
    }
}

/// A place in the pixel container belongs to one byte of one pixel.
pub proof fn lemma_byte_of_pixel(width: int, height: int, size: int, i: int)
    requires
        0 < size,
        0 <= width,
        0 <= height,
        0 <= i < width * height * size,
    ensures
        0 <= i % size < size,
        0 <= (i / size) % width < width,
        0 <= (i / size) / width < height,
        i == byte_index(width, size, (i / size) % width, (i / size) / width, i % size),
{
    let pixel = i / size;
    lemma_fundamental_div_mod(i, size);
    lemma_mod_bound(i, size);
    assert(0 <= pixel < width * height) by (nonlinear_arith)
        requires
            i == size * pixel + i % size,
            0 <= i % size < size,
            0 <= i < width * height * size,
            0 < size,
    ;
    assert(width > 0) by (nonlinear_arith)
        requires
            0 <= pixel < width * height,
            0 <= width,
    ;
    lemma_fundamental_div_mod(pixel, width);
    lemma_mod_bound(pixel, width);
    let y = pixel / width;
    assert(0 <= y < height) by (nonlinear_arith)
        requires
            pixel == width * y + pixel % width,
            0 <= pixel % width < width,
            0 <= pixel < width * height,
    ;
    assert(i == (y * width + pixel % width) * size + i % size) by (nonlinear_arith)
        requires
            i == size * pixel + i % size,
            pixel == width * y + pixel % width,
    ;
}

/// The byte `c` of the pixel (`x`, `y`) has its own place in the pixel
/// container, from which the pixel and the byte are found again.
pub proof fn lemma_place_of_byte(width: int, height: int, size: int, x: int, y: int, c: int)
    requires
        0 <= x < width,
        0 <= y < height,
        0 <= c < size,
    ensures
        0 <= byte_index(width, size, x, y, c) < width * height * size,
        byte_index(width, size, x, y, c) % size == c,
        (byte_index(width, size, x, y, c) / size) % width == x,
        (byte_index(width, size, x, y, c) / size) / width == y,
{
    let pixel = y * width + x;
    let i = byte_index(width, size, x, y, c);
    assert(0 <= pixel < width * height) by (nonlinear_arith)
        requires
            pixel == y * width + x,
            0 <= x < width,
            0 <= y < height,
    ;
    assert(0 <= i < width * height * size) by (nonlinear_arith)
        requires
            i == pixel * size + c,
            0 <= pixel < width * height,
            0 <= c < size,
    ;
    lemma_fundamental_div_mod_converse(i, size, pixel, c);
    lemma_fundamental_div_mod_converse(pixel, width, y, x);
}

/// Every byte of a rearranged image is the byte of the pixel that it was
/// taken from.
pub proof fn lemma_rearranged_at(
    src: Raster,
    size: int,
    width: int,
    height: int,
    from: spec_fn(int, int) -> (int, int),
    x: int,
    y: int,
    c: int,
)
    requires
        0 <= x < width,
        0 <= y < height,
        0 <= c < size,
    ensures
        0 <= byte_index(width, size, x, y, c) < rearranged(src, size, width, height, from).bytes.len(),
        rearranged(src, size, width, height, from).bytes[byte_index(width, size, x, y, c)] == src.bytes[byte_index(
            src.width,
            size,
            from(x, y).0,
            from(x, y).1,
            c,
        )],
{
    lemma_place_of_byte(width, height, size, x, y, c);
}

/// Rearranging twice is rearranging once, by the two arrangements one after
/// the other: where the second arrangement takes its pixels from within the
/// first image.
pub proof fn lemma_rearranged_twice(
    src: Raster,
    size: int,
    first: (int, int),
    from: spec_fn(int, int) -> (int, int),
    second: (int, int),
    then: spec_fn(int, int) -> (int, int),
    both: spec_fn(int, int) -> (int, int),
)
    requires
        0 < size,
        0 <= first.0,
        0 <= first.1,
        0 <= second.0,
        0 <= second.1,
        forall|x: int, y: int|
            0 <= x < second.0 && 0 <= y < second.1 ==> 0 <= (#[trigger] then(x, y)).0 < first.0 && 0 <= then(x, y).1
                < first.1,
        forall|x: int, y: int|
            0 <= x < second.0 && 0 <= y < second.1 ==> #[trigger] both(x, y) == from(then(x, y).0, then(x, y).1),
    ensures
        rearranged(rearranged(src, size, first.0, first.1, from), size, second.0, second.1, then) == rearranged(
            src,
            size,
            second.0,
            second.1,
            both,
        ),
{
    let middle = rearranged(src, size, first.0, first.1, from);
    let left = rearranged(middle, size, second.0, second.1, then);
    let right = rearranged(src, size, second.0, second.1, both);
    assert forall|i: int| 0 <= i < left.bytes.len() implies left.bytes[i] == right.bytes[i] by {
        lemma_byte_of_pixel(second.0, second.1, size, i);
        let x = (i / size) % second.0;
        let y = (i / size) / second.0;
        let c = i % size;
        let at = then(x, y);
        lemma_rearranged_at(src, size, first.0, first.1, from, at.0, at.1, c);
        assert(both(x, y) == from(at.0, at.1));
    }
    assert(left.bytes =~= right.bytes);
}

/// Taking every pixel from its own place changes nothing, in an image whose
/// pixel container holds the pixels and nothing more.
pub proof fn lemma_rearranged_in_place(src: Raster, size: int, from: spec_fn(int, int) -> (int, int))
    requires
        0 < size,
        0 <= src.width,
        0 <= src.height,
        src.bytes.len() == src.width * src.height * size,
        forall|x: int, y: int| 0 <= x < src.width && 0 <= y < src.height ==> #[trigger] from(x, y) == (x, y),
    ensures
        rearranged(src, size, src.width, src.height, from) == src,
{
    let out = rearranged(src, size, src.width, src.height, from);
    assert forall|i: int| 0 <= i < out.bytes.len() implies out.bytes[i] == src.bytes[i] by {
        lemma_byte_of_pixel(src.width, src.height, size, i);
        let x = (i / size) % src.width;
        let y = (i / size) / src.width;
        assert(from(x, y) == (x, y));
    }
    assert(out.bytes =~= src.bytes);
}

/// Mirroring twice gives the image back, and so does turning it upside down
/// twice or turning it by a half twice: for an image whose pixel container
/// holds the pixels and nothing more.
pub proof fn lemma_twice_is_nothing(r: Raster)
    requires
        container_is_exact(r),
        0 <= r.width,
        0 <= r.height,
    ensures
        mirrored(mirrored(r)) == r,
        upended(upended(r)) == r,
        half_turned(half_turned(r)) == r,
{
    let size = bytes_per_pixel(r.layout.unwrap());
    let (w, h) = (r.width, r.height);
    let same = |x: int, y: int| (x, y);
    lemma_rearranged_in_place(r, size, same);
    let flip = |x: int, y: int| (w - 1 - x, y);
    lemma_rearranged_twice(r, size, (w, h), flip, (w, h), flip, same);
    let up = |x: int, y: int| (x, h - 1 - y);
    lemma_rearranged_twice(r, size, (w, h), up, (w, h), up, same);
    let half = |x: int, y: int| (w - 1 - x, h - 1 - y);
    lemma_rearranged_twice(r, size, (w, h), half, (w, h), half, same);
}

/// Two quarter turns are a half turn, three are a three-quarter turn, and
/// four give the image back where its pixel container holds the pixels and
/// nothing more.
pub proof fn lemma_quarter_turns(r: Raster)
    requires
        r.layout is Some,
        0 <= r.width,
        0 <= r.height,
    ensures
        quarter_turned(quarter_turned(r)) == half_turned(r),
        quarter_turned(half_turned(r)) == three_quarter_turned(r),
        half_turned(quarter_turned(r)) == three_quarter_turned(r),
        container_is_exact(r) ==> quarter_turned(three_quarter_turned(r)) == r,
        container_is_exact(r) ==> three_quarter_turned(quarter_turned(r)) == r,
{
    let size = bytes_per_pixel(r.layout.unwrap());
    let (w, h) = (r.width, r.height);
    let quarter = |x: int, y: int| (y, h - 1 - x);
    let quarter_of_turned = |x: int, y: int| (y, w - 1 - x);
    let half = |x: int, y: int| (w - 1 - x, h - 1 - y);
    let half_of_turned = |x: int, y: int| (h - 1 - x, w - 1 - y);
    let three = |x: int, y: int| (w - 1 - y, x);
    let three_of_turned = |x: int, y: int| (h - 1 - y, x);
    let same = |x: int, y: int| (x, y);
    lemma_rearranged_twice(r, size, (h, w), quarter, (w, h), quarter_of_turned, half);
    lemma_rearranged_twice(r, size, (w, h), half, (h, w), quarter, three);
    lemma_rearranged_twice(r, size, (h, w), quarter, (h, w), half_of_turned, three);
    if container_is_exact(r) {
        lemma_rearranged_in_place(r, size, same);
        lemma_rearranged_twice(r, size, (h, w), three, (w, h), quarter_of_turned, same);
        lemma_rearranged_twice(r, size, (h, w), quarter, (w, h), three_of_turned, same);
    }
}

/// The image upside down is the mirror image turned by a half; and the mirror
/// image turned a quarter clockwise is the image upside down turned three
/// quarters clockwise.
pub proof fn lemma_mirror_and_turn(r: Raster)
    requires
        r.layout is Some,
        0 <= r.width,
        0 <= r.height,
    ensures
        half_turned(mirrored(r)) == upended(r),
        quarter_turned(mirrored(r)) == three_quarter_turned(upended(r)),
        three_quarter_turned(mirrored(r)) == quarter_turned(upended(r)),
{
    let size = bytes_per_pixel(r.layout.unwrap());
    let (w, h) = (r.width, r.height);
    let flip = |x: int, y: int| (w - 1 - x, y);
    let up = |x: int, y: int| (x, h - 1 - y);
    let half = |x: int, y: int| (w - 1 - x, h - 1 - y);
    let quarter = |x: int, y: int| (y, h - 1 - x);
    let three = |x: int, y: int| (w - 1 - y, x);
    let transposed = |x: int, y: int| (w - 1 - y, h - 1 - x);
    let swapped = |x: int, y: int| (y, x);
    lemma_rearranged_twice(r, size, (w, h), flip, (w, h), half, up);
    lemma_rearranged_twice(r, size, (w, h), flip, (h, w), quarter, transposed);
    lemma_rearranged_twice(r, size, (w, h), up, (h, w), three, transposed);
    lemma_rearranged_twice(r, size, (w, h), flip, (h, w), three, swapped);
    lemma_rearranged_twice(r, size, (w, h), up, (h, w), quarter, swapped);
}

} // verus!
