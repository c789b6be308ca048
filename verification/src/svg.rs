//! Rasterizing SVG with `resvg`.
use crate::error::Error;
use crate::error::SourceFormat;
use crate::fast_resize::fits_buffer;
use crate::raster::buffer_fits;
use resvg::tiny_skia::Pixmap;
use resvg::usvg::Tree;
use resvg::usvg::fontdb::Database;
use std::sync::Arc;
use vstd::prelude::*;

verus! {

#[verifier::external_type_specification]
#[verifier::external_body]
pub struct ExDatabase(resvg::usvg::fontdb::Database);

#[verifier::external_type_specification]
#[verifier::external_body]
pub struct ExTree(resvg::usvg::Tree);

#[verifier::external_type_specification]
#[verifier::external_body]
pub struct ExPixmap(resvg::tiny_skia::Pixmap);

/// The number of pixels in a row of a canvas.
pub uninterp spec fn canvas_width(canvas: Pixmap) -> int;

/// The number of rows of a canvas.
pub uninterp spec fn canvas_height(canvas: Pixmap) -> int;

/// The color that `svgtypes::Color` reads from a CSS color, as red, green,
/// blue and alpha; `None` where the text is no color.
pub uninterp spec fn css_color(text: Seq<char>) -> Option<(u8, u8, u8, u8)>;

/// The side that a drawing is rasterized to at least.
pub const MIN_SVG_SIZE: u32 = 1000;

/// `usvg::Tree::from_data`: the drawing that the SVG text describes, or the
/// parser's message. Text is laid out with `fonts`.
#[verifier::external_body]
pub(crate) fn parse_svg(input: &[u8], fonts: &Arc<Database>) -> (out: Result<Tree, String>) {
    let options = resvg::usvg::Options { fontdb: fonts.clone(), ..Default::default() };
    Tree::from_data(input, &options).map_err(|e| e.to_string())
}

/// `usvg::Tree::size` as whole pixels (`Size::to_int_size`): the width and
/// the height of the drawing, rounded, each at least one.
#[verifier::external_body]
pub(crate) fn svg_size(tree: &Tree) -> (out: (u32, u32))
    ensures
        out.0 >= 1,
        out.1 >= 1,
{
    let size = tree.size().to_int_size();
    (size.width(), size.height())
}

/// `tiny_skia::Pixmap::new`: a transparent canvas of `width` by `height`
/// pixels; `None` for a size of zero and for a row of more bytes than the
/// largest signed 32-bit number.
#[verifier::external_body]
pub(crate) fn new_canvas(width: u32, height: u32) -> (out: Option<Pixmap>)
    requires
        buffer_fits(width as int, height as int),
    ensures
        width == 0 || height == 0 ==> out is None,
        out matches Some(canvas) ==> canvas_width(canvas) == width && canvas_height(canvas) == height,
{
    Pixmap::new(width, height)
}

/// `tiny_skia::Pixmap::fill`: every pixel of the canvas set to one color.
/// The size stays.
#[verifier::external_body]
pub(crate) fn fill_canvas(canvas: &mut Pixmap, color: (u8, u8, u8, u8))
    ensures
        canvas_width(*final(canvas)) == canvas_width(*old(canvas)),
        canvas_height(*final(canvas)) == canvas_height(*old(canvas)),
{
    canvas.fill(resvg::tiny_skia::Color::from_rgba8(color.0, color.1, color.2, color.3))
}

/// `resvg::render` without a transform: the drawing painted on the canvas
/// from its upper left corner, in its own size. The size of the canvas stays.
#[verifier::external_body]
pub(crate) fn render_svg(tree: &Tree, canvas: &mut Pixmap)
    ensures
        canvas_width(*final(canvas)) == canvas_width(*old(canvas)),
        canvas_height(*final(canvas)) == canvas_height(*old(canvas)),
{
    resvg::render(tree, resvg::tiny_skia::Transform::identity(), &mut canvas.as_mut())
}

/// `tiny_skia::Pixmap::take`: the pixels of the canvas, four bytes each in
/// the order red, green, blue, alpha, row by row.
#[verifier::external_body]
pub(crate) fn canvas_pixels(canvas: Pixmap) -> (out: Vec<u8>)
    ensures
        out@.len() == canvas_width(canvas) * canvas_height(canvas) * 4,
{
    canvas.take()
}

/// `svgtypes::Color::from_str`: the CSS color that the text names, or the
/// parser's message.
#[verifier::external_body]
pub(crate) fn parse_color(text: &str) -> (out: Result<(u8, u8, u8, u8), String>)
    ensures
        out is Ok <==> css_color(text@) is Some,
        out matches Ok(color) ==> Some(color) == css_color(text@),
{
    text.parse::<svgtypes::Color>().map(|c| (c.red, c.green, c.blue, c.alpha)).map_err(|e| e.to_string())
}

/// How far a side is from the least side.
pub open spec fn shortfall(side: int) -> int {
    if side < MIN_SVG_SIZE {
        MIN_SVG_SIZE - side
    } else {
        0
    }
}

/// The size that a drawing of `width` by `height` is rasterized to: both
/// sides doubled until neither is under the least side.
pub open spec fn raster_size(width: int, height: int) -> (int, int)
    decreases shortfall(width) + shortfall(height),
{
    if width < 1 || height < 1 || (width >= MIN_SVG_SIZE && height >= MIN_SVG_SIZE) {
        (width, height)
    } else {
        raster_size(2 * width, 2 * height)
    }
}

/// `width` by `height` is the size that some drawing of at least one pixel a
/// side is rasterized to.
pub open spec fn is_raster_size(width: u32, height: u32) -> bool {
    exists|w: int, h: int| w >= 1 && h >= 1 && #[trigger] raster_size(w, h) == (width as int, height as int)
}

/// The size that a drawing is rasterized to, `None` where a side of it is
/// larger than a side can be.
pub fn svg_raster_size(width: u32, height: u32) -> (out: Option<(u32, u32)>)
    requires
        width >= 1,
        height >= 1,
    ensures
        out == if raster_size(width as int, height as int).0 <= u32::MAX && raster_size(
            width as int,
            height as int,
        ).1 <= u32::MAX {
            Some((raster_size(width as int, height as int).0 as u32, raster_size(width as int, height as int).1 as u32))
        } else {
            None
        },
{
    let mut w: u64 = width as u64;
    let mut h: u64 = height as u64;
    while w < MIN_SVG_SIZE as u64 || h < MIN_SVG_SIZE as u64
        invariant
            1 <= w <= 0x1_0000_0000,
            1 <= h <= 0x1_0000_0000,
            w > u32::MAX || h > u32::MAX ==> w >= MIN_SVG_SIZE || h >= MIN_SVG_SIZE,
            raster_size(w as int, h as int) == raster_size(width as int, height as int),
        decreases shortfall(w as int) + shortfall(h as int),
    {
        if w > 0x7fff_ffff || h > 0x7fff_ffff {
            proof {
                lemma_raster_size_grows(2 * w, 2 * h);
            }
            return None;
        }
        w = 2 * w;
        h = 2 * h;
    }
    if w > 0xffff_ffff || h > 0xffff_ffff {
        None
    } else {
        Some((w as u32, h as u32))
    }
}

/// Rasterizing never makes a side smaller.
pub proof fn lemma_raster_size_grows(width: int, height: int)
    requires
        width >= 1,
        height >= 1,
    ensures
        raster_size(width, height).0 >= width,
        raster_size(width, height).1 >= height,
        raster_size(width, height).0 >= MIN_SVG_SIZE,
        raster_size(width, height).1 >= MIN_SVG_SIZE,
        raster_size(width, height).0 * height == raster_size(width, height).1 * width,
    decreases shortfall(width) + shortfall(height),
{
    if !(width >= MIN_SVG_SIZE && height >= MIN_SVG_SIZE) {
        lemma_raster_size_grows(2 * width, 2 * height);
        let big = raster_size(2 * width, 2 * height);
        assert(big.0 * height == big.1 * width) by (nonlinear_arith)
            requires
                big.0 * (2 * height) == big.1 * (2 * width),
        ;
    }
}

/// No side is doubled more often than it takes: a size that was doubled at
/// all has a side that was under the least side one doubling before.
pub proof fn lemma_raster_size_least(width: int, height: int)
    requires
        width >= 1,
        height >= 1,
    ensures
        ({
            let out = raster_size(width, height);
            out == (width, height) || (out.0 % 2 == 0 && out.1 % 2 == 0 && (out.0 / 2 < MIN_SVG_SIZE || out.1 / 2
                < MIN_SVG_SIZE))
        }),
    decreases shortfall(width) + shortfall(height),
{
    if !(width >= MIN_SVG_SIZE && height >= MIN_SVG_SIZE) {
        lemma_raster_size_least(2 * width, 2 * height);
    }
}

/// What came of reading an SVG or its background: the value, or the failure
/// with the reader's words.
pub fn svg_outcome<T>(outcome: Result<T, String>) -> (out: Result<T, Error>)
    ensures
        out == match outcome {
            Ok(value) => Ok::<T, Error>(value),
            Err(detail) => Err(Error::DecodeFailed { source: SourceFormat::Svg, detail }),
        },
{
    match outcome {
        Ok(value) => Ok(value),
        Err(detail) => Err(Error::DecodeFailed { source: SourceFormat::Svg, detail }),
    }
}

/// A rasterized drawing: its size and its pixels, four bytes for each in the
/// order red, green, blue, alpha.
pub struct Rasterized {
    pub width: u32,
    pub height: u32,
    pub pixels: Vec<u8>,
}

/// Rasterizes an SVG on a canvas of at least the least side, over the
/// background color if there is one.
///
/// Fails with `DecodeFailed` where the SVG or the color cannot be read, and
/// with `InvalidDimensions` where the canvas would be larger than a canvas
/// can be.
pub fn rasterize(input: &[u8], background: Option<String>, fonts: &Arc<Database>) -> (out: Result<Rasterized, Error>)
    ensures
        out matches Ok(drawn) ==> {
            &&& drawn.width >= MIN_SVG_SIZE
            &&& drawn.height >= MIN_SVG_SIZE
            &&& is_raster_size(drawn.width, drawn.height)
            &&& drawn.pixels@.len() == drawn.width * drawn.height * 4
        },
        out matches Err(e) ==> e == Error::InvalidDimensions || (e matches Error::DecodeFailed { source, .. }
            && source == SourceFormat::Svg),
        background matches Some(text) ==> (css_color(text@) is None ==> out is Err),
{
    let tree = svg_outcome(parse_svg(input, fonts))?;
    let size = svg_size(&tree);
    let color = match background {
        Some(text) => Some(svg_outcome(parse_color(text.as_str()))?),
        None => None,
    };
    proof {
        lemma_raster_size_grows(size.0 as int, size.1 as int);
    }
    let (width, height) = match svg_raster_size(size.0, size.1) {
        Some(grown) => grown,
        None => {
            return Err(Error::InvalidDimensions);
        },
    };
    assert(raster_size(size.0 as int, size.1 as int) == (width as int, height as int));
    if !fits_buffer(width, height) {
        return Err(Error::InvalidDimensions);
    }
    let mut canvas = match new_canvas(width, height) {
        Some(canvas) => canvas,
        None => {
            return Err(Error::InvalidDimensions);
        },
    };
    match color {
        Some(color) => {
            fill_canvas(&mut canvas, color);
        },
        None => {},
    }
    render_svg(&tree, &mut canvas);
    Ok(Rasterized { width, height, pixels: canvas_pixels(canvas) })
}

} // verus!
