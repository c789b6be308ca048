//! The pixel buffers of the `image` crate, as this library sees them.
//!
//! A `DynamicImage` is opaque to the verifier. What the library reads of one
//! is named here (`raster_of`), and every operation that the library asks of
//! the `image` crate is a small function whose contract is taken on trust
//! from that crate's source.
use crate::error::SourceFormat;
use crate::geometry::bytes_per_pixel;
use crate::geometry::container_is_exact;
use crate::geometry::cut_out;
use crate::geometry::half_turned;
use crate::geometry::laid_over;
use crate::geometry::mirrored;
use crate::geometry::quarter_turned;
use crate::geometry::three_quarter_turned;
use crate::geometry::upended;
use crate::transformer::JsColorType;
use crate::transformer::ResizeFilterType;
use crate::utils::max_side;
use crate::utils::spec_resize_dimensions;
use image::DynamicImage;
use image::ImageFormat;
use vstd::prelude::*;

verus! {

#[verifier::external_type_specification]
#[verifier::external_body]
pub struct ExDynamicImage(image::DynamicImage);

/// All that the library reads of an image.
pub ghost struct Raster {
    /// Pixels per row.
    pub width: int,
    /// Rows.
    pub height: int,
    /// The channel layout, `None` for one that this library has no name for.
    pub layout: Option<JsColorType>,
    /// The color space that the image is tagged with, as a number.
    pub space: int,
    /// The bytes of the pixel container, in native byte order.
    pub bytes: Seq<u8>,
}

/// The bytes of an image's pixel container, in native byte order.
pub uninterp spec fn pixel_bytes(img: DynamicImage) -> Seq<u8>;

/// The number of pixels in a row of an image.
pub uninterp spec fn pixel_width(img: DynamicImage) -> int;

/// The number of rows of an image.
pub uninterp spec fn pixel_height(img: DynamicImage) -> int;

/// The channel layout of an image, one of the ten that an image can have.
pub uninterp spec fn pixel_kind(img: DynamicImage) -> JsColorType;

/// The channel layout of an image.
pub open spec fn pixel_layout(img: DynamicImage) -> Option<JsColorType> {
    Some(pixel_kind(img))
}

/// The color space that an image is tagged with, as a number.
pub uninterp spec fn pixel_space(img: DynamicImage) -> int;

/// What the library reads of `img`.
pub open spec fn raster_of(img: DynamicImage) -> Raster {
    Raster {
        width: pixel_width(img),
        height: pixel_height(img),
        layout: pixel_layout(img),
        space: pixel_space(img),
        bytes: pixel_bytes(img),
    }
}

/// A buffer of `width` by `height` pixels, at the sixteen bytes of the widest
/// pixel, is within what one allocation can hold.
pub open spec fn buffer_fits(width: int, height: int) -> bool {
    width * height * 16 <= isize::MAX
}

/// The layout that a grayscale conversion gives: luminance with the same bit
/// depth and alpha channel, but for the float layouts, which stay.
pub open spec fn gray_layout(layout: Option<JsColorType>) -> Option<JsColorType> {
    match layout {
        Some(JsColorType::Rgb8) => Some(JsColorType::L8),
        Some(JsColorType::Rgba8) => Some(JsColorType::La8),
        Some(JsColorType::Rgb16) => Some(JsColorType::L16),
        Some(JsColorType::Rgba16) => Some(JsColorType::La16),
        other => other,
    }
}

/// The samples of the layout are whole numbers, of 8 or of 16 bits.
pub open spec fn has_integer_samples(layout: Option<JsColorType>) -> bool {
    match layout {
        Some(JsColorType::Rgb32F) | Some(JsColorType::Rgba32F) | None => false,
        Some(_) => true,
    }
}

/// The rectangle that a crop keeps: a corner outside the image is moved to
/// its edge and the sides are cut to what is left from there.
pub open spec fn crop_window(width: int, height: int, x: int, y: int, w: int, h: int) -> (int, int) {
    let cx = if x < width { x } else { width };
    let cy = if y < height { y } else { height };
    (if w < width - cx { w } else { width - cx }, if h < height - cy { h } else { height - cy })
}

/// A resize that keeps the aspect ratio computes the new size in
/// double-precision numbers. This says when that size is the exact one,
/// rounded to the nearest pixel: no side is longer than 65535 pixels, so that
/// the numbers are far more exact than a pixel, and neither side that the
/// scaling gives lies exactly half-way between two pixels.
pub open spec fn scales_plainly(width: int, height: int, nwidth: int, nheight: int) -> bool {
    &&& 1 <= width <= 0xffff
    &&& 1 <= height <= 0xffff
    &&& 0 <= nwidth <= 0xffff
    &&& 0 <= nheight <= 0xffff
    &&& (2 * height * nwidth) % (2 * width) != width
    &&& (2 * width * nheight) % (2 * height) != height
}

/// The container that `image::guess_format` finds in the first bytes.
pub uninterp spec fn sniffed(bytes: Seq<u8>) -> Option<SourceFormat>;

/// The kernel of the filter is computed with additions, multiplications and
/// divisions alone, which give the same digits on every machine. The other
/// kernels go through `sin`, `exp` or `powi`, whose last digit the platform
/// decides.
pub open spec fn kernel_is_exact(filter: ResizeFilterType) -> bool {
    filter is Nearest || filter is Triangle
}

/// The image that `DynamicImage::resize` returns: for every filter in its
/// size, for a filter with an exact kernel in its pixels too.
pub uninterp spec fn resized_inside(src: Raster, nwidth: u32, nheight: u32, filter: ResizeFilterType) -> Raster;

/// The image that `DynamicImage::resize_exact` returns: for every filter in
/// its size, for a filter with an exact kernel in its pixels too.
pub uninterp spec fn resized_exact(src: Raster, nwidth: u32, nheight: u32, filter: ResizeFilterType) -> Raster;

/// The image that `DynamicImage::resize_to_fill` returns: for every filter in
/// its size, for a filter with an exact kernel in its pixels too.
pub uninterp spec fn resized_to_fill(src: Raster, nwidth: u32, nheight: u32, filter: ResizeFilterType) -> Raster;

/// The image that `DynamicImage::grayscale` returns.
pub uninterp spec fn grayscaled(src: Raster) -> Raster;

/// The image that `DynamicImage::invert` leaves.
pub uninterp spec fn inverted(src: Raster) -> Raster;

/// The image that `DynamicImage::brighten` returns.
pub uninterp spec fn brightened(src: Raster, value: i32) -> Raster;

/// The image that `imageops::overlay` leaves in its first argument.
pub uninterp spec fn overlaid(bottom: Raster, top: Raster, x: i64, y: i64) -> Raster;

/// The samples that `DynamicImage::to_rgba8` returns.
pub uninterp spec fn rgba8_samples(src: Raster) -> Seq<u8>;

/// The samples that `DynamicImage::to_rgb8` returns.
pub uninterp spec fn rgb8_samples(src: Raster) -> Seq<u8>;

/// `DynamicImage::width`: the number of pixels in a row.
#[verifier::external_body]
pub(crate) fn image_width(img: &DynamicImage) -> (w: u32)
    ensures
        w == pixel_width(*img),
{
    img.width()
}

/// `DynamicImage::height`: the number of rows.
#[verifier::external_body]
pub(crate) fn image_height(img: &DynamicImage) -> (h: u32)
    ensures
        h == pixel_height(*img),
{
    img.height()
}

/// `DynamicImage::color`: the channel layout, each of the ten layouts that
/// an image can have under the name it has here.
#[verifier::external_body]
pub(crate) fn image_layout(img: &DynamicImage) -> (layout: Option<JsColorType>)
    ensures
        layout == Some(pixel_kind(*img)),
{
    match img.color() {
        image::ColorType::L8 => Some(JsColorType::L8),
        image::ColorType::La8 => Some(JsColorType::La8),
        image::ColorType::Rgb8 => Some(JsColorType::Rgb8),
        image::ColorType::Rgba8 => Some(JsColorType::Rgba8),
        image::ColorType::L16 => Some(JsColorType::L16),
        image::ColorType::La16 => Some(JsColorType::La16),
        image::ColorType::Rgb16 => Some(JsColorType::Rgb16),
        image::ColorType::Rgba16 => Some(JsColorType::Rgba16),
        image::ColorType::Rgb32F => Some(JsColorType::Rgb32F),
        image::ColorType::Rgba32F => Some(JsColorType::Rgba32F),
        _ => None,
    }
}

/// `DynamicImage::as_bytes`: a copy of the pixel container, which is never
/// shorter than the pixels of the image.
#[verifier::external_body]
pub(crate) fn image_bytes(img: &DynamicImage) -> (bytes: Vec<u8>)
    ensures
        bytes@ == pixel_bytes(*img),
        bytes@.len() >= pixel_width(*img) * pixel_height(*img) * bytes_per_pixel(pixel_kind(*img)),
{
    img.as_bytes().to_vec()
}

/// `DynamicImage::clone`: an image with the same pixels, size, layout and
/// color space.
#[verifier::external_body]
pub(crate) fn image_clone(img: &DynamicImage) -> (out: DynamicImage)
    ensures
        pixel_width(out) == pixel_width(*img),
        pixel_height(out) == pixel_height(*img),
        pixel_layout(out) == pixel_layout(*img),
        pixel_space(out) == pixel_space(*img),
        pixel_bytes(out) == pixel_bytes(*img),
{
    img.clone()
}

/// `image::guess_format`: the container that the magic bytes at the start of
/// `bytes` belong to, `None` where they match no container.
#[verifier::external_body]
pub(crate) fn sniff(bytes: &[u8]) -> (out: Option<SourceFormat>)
    ensures
        out == sniffed(bytes@),
{
    Some(match image::guess_format(bytes).ok()? {
        ImageFormat::Png => SourceFormat::Png, ImageFormat::Jpeg => SourceFormat::Jpeg,
        ImageFormat::Gif => SourceFormat::Gif, ImageFormat::WebP => SourceFormat::WebP,
        ImageFormat::Pnm => SourceFormat::Pnm, ImageFormat::Tiff => SourceFormat::Tiff,
        ImageFormat::Bmp => SourceFormat::Bmp, ImageFormat::Ico => SourceFormat::Ico,
        ImageFormat::Farbfeld => SourceFormat::Farbfeld, ImageFormat::Avif => SourceFormat::Avif,
        ImageFormat::Dds => SourceFormat::Dds, ImageFormat::Hdr => SourceFormat::Hdr,
        ImageFormat::OpenExr => SourceFormat::OpenExr, ImageFormat::Qoi => SourceFormat::Qoi,
        _ => SourceFormat::Other,
    })
}

/// The containers whose decoders compute in whole numbers and in single
/// multiplications and divisions, so that the same file gives the same image
/// on every machine.
pub open spec fn decodes_exactly(format: SourceFormat) -> bool {
    match format {
        SourceFormat::Png | SourceFormat::Gif | SourceFormat::Bmp | SourceFormat::Ico | SourceFormat::Pnm
        | SourceFormat::Farbfeld => true,
        _ => false,
    }
}

/// The first bytes are those of a container that decodes exactly.
pub open spec fn is_exact_file(bytes: Seq<u8>) -> bool {
    match sniffed(bytes) {
        Some(format) => decodes_exactly(format),
        None => false,
    }
}

/// The image that `image::load_from_memory` decodes from a file of a
/// container that decodes exactly; `None` where it reports an error.
pub uninterp spec fn decoded_image(bytes: Seq<u8>) -> Option<Raster>;

/// `image::load_from_memory`: the decoded image, or the decoder's message.
/// The result is named for the containers that decode exactly. The pixels
/// that the JPEG decoder gives differ with the instructions that the
/// processor offers, and the decoders of the remaining containers were not
/// gone through, so nothing is promised of their results.
#[verifier::external_body]
pub(crate) fn decode_image(bytes: &[u8]) -> (out: Result<DynamicImage, String>)
    ensures
        is_exact_file(bytes@) ==> (out is Ok <==> decoded_image(bytes@) is Some),
        is_exact_file(bytes@) ==> (out matches Ok(img) ==> Some(raster_of(img)) == decoded_image(bytes@)),
{
    image::load_from_memory(bytes).map_err(|err| err.to_string())
}

/// `DynamicImage::fliph`: the mirror image, in a new pixel container that
/// holds the pixels and nothing more; every pixel is moved with all its
/// bytes. Size, layout and color space stay.
#[verifier::external_body]
pub(crate) fn image_fliph(img: &DynamicImage) -> (out: DynamicImage)
    ensures
        raster_of(out) == mirrored(raster_of(*img)),
        pixel_width(out) == pixel_width(*img),
        pixel_height(out) == pixel_height(*img),
        pixel_layout(out) == pixel_layout(*img),
{
    img.fliph()
}

/// `DynamicImage::flipv`: the image upside down, in a new pixel container
/// that holds the pixels and nothing more; every pixel is moved with all its
/// bytes. Size, layout and color space stay.
#[verifier::external_body]
pub(crate) fn image_flipv(img: &DynamicImage) -> (out: DynamicImage)
    ensures
        raster_of(out) == upended(raster_of(*img)),
        pixel_width(out) == pixel_width(*img),
        pixel_height(out) == pixel_height(*img),
        pixel_layout(out) == pixel_layout(*img),
{
    img.flipv()
}

/// `DynamicImage::rotate90`: the image turned a quarter clockwise, so with
/// width and height exchanged, in a new pixel container that holds the pixels
/// and nothing more; every pixel is moved with all its bytes. Layout and
/// color space stay.
#[verifier::external_body]
pub(crate) fn image_rotate90(img: &DynamicImage) -> (out: DynamicImage)
    ensures
        raster_of(out) == quarter_turned(raster_of(*img)),
        pixel_width(out) == pixel_height(*img),
        pixel_height(out) == pixel_width(*img),
        pixel_layout(out) == pixel_layout(*img),
{
    img.rotate90()
}

/// `DynamicImage::rotate180`: the image turned by a half, in a new pixel
/// container that holds the pixels and nothing more; every pixel is moved
/// with all its bytes. Size, layout and color space stay.
#[verifier::external_body]
pub(crate) fn image_rotate180(img: &DynamicImage) -> (out: DynamicImage)
    ensures
        raster_of(out) == half_turned(raster_of(*img)),
        pixel_width(out) == pixel_width(*img),
        pixel_height(out) == pixel_height(*img),
        pixel_layout(out) == pixel_layout(*img),
{
    img.rotate180()
}

/// `DynamicImage::rotate270`: the image turned three quarters clockwise, so
/// with width and height exchanged, in a new pixel container that holds the
/// pixels and nothing more; every pixel is moved with all its bytes. Layout
/// and color space stay.
#[verifier::external_body]
pub(crate) fn image_rotate270(img: &DynamicImage) -> (out: DynamicImage)
    ensures
        raster_of(out) == three_quarter_turned(raster_of(*img)),
        pixel_width(out) == pixel_height(*img),
        pixel_height(out) == pixel_width(*img),
        pixel_layout(out) == pixel_layout(*img),
{
    img.rotate270()
}

/// `DynamicImage::resize`: the image scaled, with its aspect ratio kept, to
/// the largest size within `nwidth` by `nheight`; a side never falls under one
/// pixel. The layout stays. The size is the same on every machine, and so are
/// the pixels of a filter with an exact kernel; it is the exact size to the
/// nearest pixel where `scales_plainly` holds. A box of the size of the image
/// gives a copy of the image; every other result is in a new pixel container
/// that holds the pixels and nothing more. The call allocates a buffer of the source's width
/// by the new height and one of the new size, both within the box, and stops
/// the program where an allocation cannot hold them: such a box is left out.
#[verifier::external_body]
pub(crate) fn image_resize(img: &DynamicImage, nwidth: u32, nheight: u32, filter: ResizeFilterType) -> (out:
    DynamicImage)
    requires
        buffer_fits(nwidth + 1, nheight + 1),
        buffer_fits(pixel_width(*img), nheight + 1),
    ensures
        kernel_is_exact(filter) ==> raster_of(out) == resized_inside(raster_of(*img), nwidth, nheight, filter),
        pixel_width(out) == resized_inside(raster_of(*img), nwidth, nheight, filter).width,
        pixel_height(out) == resized_inside(raster_of(*img), nwidth, nheight, filter).height,
        pixel_layout(out) == pixel_layout(*img),
        pixel_width(out) <= nwidth || pixel_width(out) == 1,
        pixel_height(out) <= nheight || pixel_height(out) == 1,
        scales_plainly(pixel_width(*img), pixel_height(*img), nwidth as int, nheight as int) ==> (
            pixel_width(out),
            pixel_height(out),
        ) == spec_resize_dimensions(pixel_width(*img), pixel_height(*img), nwidth as int, nheight as int, false),
        container_is_exact(raster_of(*img)) ==> container_is_exact(raster_of(out)),
{
    img.resize(nwidth, nheight, match filter {
        ResizeFilterType::Nearest => image::imageops::FilterType::Nearest,
        ResizeFilterType::Triangle => image::imageops::FilterType::Triangle,
        ResizeFilterType::CatmullRom => image::imageops::FilterType::CatmullRom,
        ResizeFilterType::Gaussian => image::imageops::FilterType::Gaussian,
        ResizeFilterType::Lanczos3 => image::imageops::FilterType::Lanczos3,
    })
}

/// `DynamicImage::resize_exact`: the image stretched to exactly `nwidth` by
/// `nheight`, in the same layout and in a new pixel container that holds the
/// pixels and nothing more; the pixels are the same on every machine for a
/// filter with an exact kernel. The call allocates a buffer of the source's
/// width by `nheight` and one of the new size, and stops the program where an
/// allocation cannot hold them: such a size is left out.
#[verifier::external_body]
pub(crate) fn image_resize_exact(img: &DynamicImage, nwidth: u32, nheight: u32, filter: ResizeFilterType) -> (out:
    DynamicImage)
    requires
        buffer_fits(nwidth as int, nheight as int),
        buffer_fits(pixel_width(*img), nheight as int),
    ensures
        kernel_is_exact(filter) ==> raster_of(out) == resized_exact(raster_of(*img), nwidth, nheight, filter),
        pixel_width(out) == resized_exact(raster_of(*img), nwidth, nheight, filter).width,
        pixel_height(out) == resized_exact(raster_of(*img), nwidth, nheight, filter).height,
        pixel_layout(out) == pixel_layout(*img),
        pixel_width(out) == nwidth,
        pixel_height(out) == nheight,
        container_is_exact(raster_of(out)),
{
    img.resize_exact(nwidth, nheight, match filter {
        ResizeFilterType::Nearest => image::imageops::FilterType::Nearest,
        ResizeFilterType::Triangle => image::imageops::FilterType::Triangle,
        ResizeFilterType::CatmullRom => image::imageops::FilterType::CatmullRom,
        ResizeFilterType::Gaussian => image::imageops::FilterType::Gaussian,
        ResizeFilterType::Lanczos3 => image::imageops::FilterType::Lanczos3,
    })
}

/// `DynamicImage::resize_to_fill`: the image scaled, with its aspect ratio
/// kept, until it covers `nwidth` by `nheight`, then cut around its centre to
/// that box. The layout stays and no side is larger than asked; where the
/// scaled image stays under the largest side, the result is exactly the box.
/// The size is the same on every machine, and so are the pixels of a filter
/// with an exact kernel. The pixel container is new and holds the pixels and
/// nothing more.
///
/// The scaled image is within one pixel of `spec_resize_dimensions`, which
/// bounds what the call allocates. On an image without pixels the call's
/// centring subtracts below zero, so such an image is left out.
#[verifier::external_body]
pub(crate) fn image_resize_to_fill(img: &DynamicImage, nwidth: u32, nheight: u32, filter: ResizeFilterType) -> (out:
    DynamicImage)
    requires
        pixel_width(*img) > 0,
        pixel_height(*img) > 0,
        ({
            let cover = spec_resize_dimensions(pixel_width(*img), pixel_height(*img), nwidth as int, nheight as int, true);
            buffer_fits(cover.0 + 1, cover.1 + 1) && buffer_fits(pixel_width(*img), cover.1 + 1)
        }),
    ensures
        kernel_is_exact(filter) ==> raster_of(out) == resized_to_fill(raster_of(*img), nwidth, nheight, filter),
        pixel_width(out) == resized_to_fill(raster_of(*img), nwidth, nheight, filter).width,
        pixel_height(out) == resized_to_fill(raster_of(*img), nwidth, nheight, filter).height,
        pixel_layout(out) == pixel_layout(*img),
        pixel_width(out) <= nwidth,
        pixel_height(out) <= nheight,
        container_is_exact(raster_of(out)),
        ({
            let cover = spec_resize_dimensions(pixel_width(*img), pixel_height(*img), nwidth as int, nheight as int, true);
            cover.0 + 1 < max_side() && cover.1 + 1 < max_side() ==> pixel_width(out) == nwidth && pixel_height(out)
                == nheight
        }),
{
    img.resize_to_fill(nwidth, nheight, match filter {
        ResizeFilterType::Nearest => image::imageops::FilterType::Nearest,
        ResizeFilterType::Triangle => image::imageops::FilterType::Triangle,
        ResizeFilterType::CatmullRom => image::imageops::FilterType::CatmullRom,
        ResizeFilterType::Gaussian => image::imageops::FilterType::Gaussian,
        ResizeFilterType::Lanczos3 => image::imageops::FilterType::Lanczos3,
    })
}

/// `DynamicImage::grayscale`: the image in shades of gray, of the same size;
/// the integer color layouts become the luminance layout of their depth.
#[verifier::external_body]
pub(crate) fn image_grayscale(img: &DynamicImage) -> (out: DynamicImage)
    ensures
        raster_of(out) == grayscaled(raster_of(*img)),
        pixel_width(out) == pixel_width(*img),
        pixel_height(out) == pixel_height(*img),
        pixel_layout(out) == gray_layout(pixel_layout(*img)),
{
    img.grayscale()
}

/// `DynamicImage::invert`: the colors inverted in place; size and layout stay.
#[verifier::external_body]
pub(crate) fn image_invert(img: &mut DynamicImage)
    ensures
        raster_of(*final(img)) == inverted(raster_of(*old(img))),
        pixel_width(*final(img)) == pixel_width(*old(img)),
        pixel_height(*final(img)) == pixel_height(*old(img)),
        pixel_layout(*final(img)) == pixel_layout(*old(img)),
{
    img.invert()
}

/// `DynamicImage::brighten`: `value` added to every color sample, which is
/// held to the range of the samples, in an image of the same size and layout.
/// The call stops the program on a sample that is no whole number of 32 bits
/// and on a sum beyond 32 bits, so images with float samples and amounts
/// beyond the range of a 16-bit sample are left out.
#[verifier::external_body]
pub(crate) fn image_brighten(img: &DynamicImage, value: i32) -> (out: DynamicImage)
    requires
        has_integer_samples(pixel_layout(*img)),
        -65535 <= value <= 65535,
    ensures
        raster_of(out) == brightened(raster_of(*img), value),
        pixel_width(out) == pixel_width(*img),
        pixel_height(out) == pixel_height(*img),
        pixel_layout(out) == pixel_layout(*img),
{
    img.brighten(value)
}

/// `DynamicImage::huerotate`: the hue of every pixel turned by `degrees`, in
/// an image of the same size and layout. The turn goes through `sin` and
/// `cos`, whose last digit the platform decides, so nothing is said of the
/// samples.
#[verifier::external_body]
pub(crate) fn image_huerotate(img: &DynamicImage, degrees: i32) -> (out: DynamicImage)
    ensures
        pixel_width(out) == pixel_width(*img),
        pixel_height(out) == pixel_height(*img),
        pixel_layout(out) == pixel_layout(*img),
{
    img.huerotate(degrees)
}

/// `DynamicImage::crop_imm`: a copy of the rectangle at (`x`, `y`), cut to
/// what the image holds (`crop_window`), in a new pixel container that holds
/// the pixels and nothing more; every pixel is copied with all its bytes.
/// Layout and color space stay.
#[verifier::external_body]
pub(crate) fn image_crop(img: &DynamicImage, x: u32, y: u32, width: u32, height: u32) -> (out: DynamicImage)
    ensures
        raster_of(out) == cut_out(raster_of(*img), x, y, width, height),
        pixel_layout(out) == pixel_layout(*img),
        (pixel_width(out), pixel_height(out)) == crop_window(
            pixel_width(*img),
            pixel_height(*img),
            x as int,
            y as int,
            width as int,
            height as int,
        ),
{
    img.crop_imm(x, y, width, height)
}

/// `imageops::overlay`: `top` blended over `bottom` with its corner at
/// (`x`, `y`); what falls outside `bottom` is dropped. The pixels of
/// `bottom` are rewritten in place where `top` covers them and nowhere else;
/// a blend with an opaque pixel is that pixel, and one with a wholly
/// transparent pixel changes nothing (`laid_over`).
#[verifier::external_body]
pub(crate) fn image_overlay(bottom: &mut DynamicImage, top: &DynamicImage, x: i64, y: i64)
    ensures
        raster_of(*final(bottom)) == overlaid(raster_of(*old(bottom)), raster_of(*top), x, y),
        laid_over(raster_of(*old(bottom)), raster_of(*top), x, y, raster_of(*final(bottom))),
        pixel_width(*final(bottom)) == pixel_width(*old(bottom)),
        pixel_height(*final(bottom)) == pixel_height(*old(bottom)),
        pixel_layout(*final(bottom)) == pixel_layout(*old(bottom)),
{
    image::imageops::overlay(bottom, top, x, y)
}

/// `RgbaImage::from_vec`: an image of `width` by `height` pixels of four
/// 8-bit channels over `buf`, or `None` where `buf` is too short for them.
#[verifier::external_body]
pub(crate) fn rgba8_from_vec(width: u32, height: u32, buf: Vec<u8>) -> (out: Option<DynamicImage>)
    ensures
        out is Some <==> width * height * 4 <= buf@.len(),
        out matches Some(img) ==> {
            &&& pixel_width(img) == width
            &&& pixel_height(img) == height
            &&& pixel_layout(img) == Some(JsColorType::Rgba8)
            &&& pixel_bytes(img) == buf@
        },
{
    image::RgbaImage::from_vec(width, height, buf).map(DynamicImage::ImageRgba8)
}

/// `RgbImage::from_raw`: an image of `width` by `height` pixels of three
/// 8-bit channels over `buf`, or `None` where `buf` is too short for them.
#[verifier::external_body]
pub(crate) fn rgb8_from_vec(width: u32, height: u32, buf: Vec<u8>) -> (out: Option<DynamicImage>)
    ensures
        out is Some <==> width * height * 3 <= buf@.len(),
        out matches Some(img) ==> {
            &&& pixel_width(img) == width
            &&& pixel_height(img) == height
            &&& pixel_layout(img) == Some(JsColorType::Rgb8)
            &&& pixel_bytes(img) == buf@
        },
{
    image::RgbImage::from_raw(width, height, buf).map(DynamicImage::ImageRgb8)
}

/// `GrayImage::from_raw`: an image of `width` by `height` pixels of one 8-bit
/// channel over `buf`, or `None` where `buf` is too short for them.
#[verifier::external_body]
pub(crate) fn luma8_from_vec(width: u32, height: u32, buf: Vec<u8>) -> (out: Option<DynamicImage>)
    ensures
        out is Some <==> width * height <= buf@.len(),
        out matches Some(img) ==> {
            &&& pixel_width(img) == width
            &&& pixel_height(img) == height
            &&& pixel_layout(img) == Some(JsColorType::L8)
            &&& pixel_bytes(img) == buf@
        },
{
    image::GrayImage::from_raw(width, height, buf).map(DynamicImage::ImageLuma8)
}

/// `DynamicImage::to_rgba8`: the pixels as 8-bit RGBA samples, four for each
/// pixel, row by row; an image that is held so already is copied with all of
/// its container.
#[verifier::external_body]
pub(crate) fn image_to_rgba8(img: &DynamicImage) -> (out: Vec<u8>)
    ensures
        out@ == rgba8_samples(raster_of(*img)),
        out@.len() >= pixel_width(*img) * pixel_height(*img) * 4,
{
    img.to_rgba8().into_raw()
}

/// `DynamicImage::to_rgb8`: the pixels as 8-bit RGB samples, three for each
/// pixel, row by row; an image that is held so already is copied with all of
/// its container.
#[verifier::external_body]
pub(crate) fn image_to_rgb8(img: &DynamicImage) -> (out: Vec<u8>)
    ensures
        out@ == rgb8_samples(raster_of(*img)),
        out@.len() >= pixel_width(*img) * pixel_height(*img) * 3,
{
    img.to_rgb8().into_raw()
}

} // verus!
