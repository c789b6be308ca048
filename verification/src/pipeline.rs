//! The transforms, one function for each step and in the order in which
//! they are applied: orientation, resize, fast resize, grayscale and
//! inversion; then, after the filters with real-number parameters,
//! brightness, hue, crop and overlays.
use crate::error::Error;
use crate::error::SourceFormat;
use crate::fast_resize::FastResizeOptions;
use crate::fast_resize::ResizeFit;
use crate::fast_resize::fast_resize;
use crate::fast_resize::fast_resize_feasible;
use crate::fast_resize::fast_resize_size;
use crate::fast_resize::fit_or_default;
use crate::fast_resize::fits_buffer;
use crate::geometry::container_is_exact;
use crate::geometry::cut_out;
use crate::geometry::lemma_mirror_and_turn;
use crate::geometry::lemma_quarter_turns;
use crate::geometry::lemma_twice_is_nothing;
use crate::geometry::half_turned;
use crate::geometry::laid_over;
use crate::geometry::mirrored;
use crate::geometry::quarter_turned;
use crate::geometry::three_quarter_turned;
use crate::geometry::upended;
use crate::orientation::Orientation;
use crate::queue::ImageTransformArgs;
use crate::queue::Overlay;
use crate::queue::OverlayView;
use crate::queue::QueueView;
use crate::queue::ResizeOptions;
use crate::queue::overlays_view;
use crate::raster::Raster;
use crate::raster::brightened;
use crate::raster::buffer_fits;
use crate::raster::decoded_image;
use crate::raster::grayscaled;
use crate::raster::gray_layout;
use crate::raster::has_integer_samples;
use crate::raster::image_brighten;
use crate::raster::image_crop;
use crate::raster::image_fliph;
use crate::raster::image_flipv;
use crate::raster::image_grayscale;
use crate::raster::image_height;
use crate::raster::image_huerotate;
use crate::raster::image_layout;
use crate::raster::image_invert;
use crate::raster::image_overlay;
use crate::raster::image_resize;
use crate::raster::image_resize_exact;
use crate::raster::image_resize_to_fill;
use crate::raster::image_rotate180;
use crate::raster::image_rotate270;
use crate::raster::image_rotate90;
use crate::raster::image_width;
use crate::raster::inverted;
use crate::raster::is_exact_file;
use crate::raster::kernel_is_exact;
use crate::raster::overlaid;
use crate::raster::pixel_bytes;
use crate::raster::pixel_height;
use crate::raster::pixel_layout;
use crate::raster::pixel_width;
use crate::raster::raster_of;
use crate::raster::resized_exact;
use crate::raster::scales_plainly;
use crate::raster::sniffed;
use crate::raster::resized_inside;
use crate::raster::resized_to_fill;
use crate::session::ThreadsafeDynamicImage;
use crate::session::avif_layout;
use crate::session::avif_samples_fit;
use crate::transformer::JsColorType;
use crate::transformer::ResizeFilterType;
use crate::utils::max_side;
use crate::utils::resize_dimensions;
use crate::utils::scaled_height;
use crate::utils::spec_resize_dimensions;
use crate::utils::spec_scaled_height;
use image::DynamicImage;
use vstd::prelude::*;

verus! {

/// The orientation to correct for, if any.
///
/// Nothing is corrected unless rotation or an explicit orientation is asked
/// for. An explicit orientation counts before the one that EXIF gives, which
/// is then not even looked at. An EXIF value outside 1 to 8 that would have
/// to be used is an `InvalidOrientation`.
pub open spec fn effective_orientation(q: QueueView, exif: Option<u16>) -> Result<Option<Orientation>, Error> {
    if !q.rotate && q.orientation is None {
        Ok(None)
    } else {
        match q.orientation {
            Some(o) => Ok(Some(o)),
            None => match exif {
                None => Ok(None),
                Some(value) => match Orientation::from_code(value as int) {
                    Some(o) => Ok(Some(o)),
                    None => Err(Error::InvalidOrientation),
                },
            },
        }
    }
}

/// An explicit orientation is the one that is corrected for, whatever EXIF
/// says and whether rotation was asked for or not; without one, and with
/// rotation asked for, the orientation of EXIF is corrected for.
pub proof fn lemma_override_counts_before_exif(q: QueueView, o: Orientation, exif: Option<u16>, other: Option<u16>)
    ensures
        q.orientation == Some(o) ==> effective_orientation(q, exif) == Ok::<Option<Orientation>, Error>(Some(o)),
        q.orientation == Some(o) ==> effective_orientation(q, exif) == effective_orientation(q, other),
        q.orientation is None && q.rotate && exif == Some(o.to_u16_spec()) ==> effective_orientation(q, exif) == Ok::<
            Option<Orientation>,
            Error,
        >(Some(o)),
        q.orientation is None && !q.rotate ==> effective_orientation(q, exif) == Ok::<Option<Orientation>, Error>(
            None,
        ),
{
    crate::orientation::lemma_orientation_codes(o, 0);
}

/// The orientation to correct for, if any.
pub fn resolve_orientation(args: &ImageTransformArgs, exif: Option<u16>) -> (out: Result<Option<Orientation>, Error>)
    ensures
        out == effective_orientation(args@, exif),
{
    if !args.rotate && args.orientation.is_none() {
        return Ok(None);
    }
    match args.orientation {
        Some(o) => Ok(Some(o)),
        None => match exif {
            None => Ok(None),
            Some(value) => {
                let o = Orientation::try_from(value)?;
                Ok(Some(o))
            },
        },
    }
}

/// The image that corrects for an orientation: mirrored, turned, or both.
pub open spec fn oriented(r: Raster, o: Orientation) -> Raster {
    match o {
        Orientation::Horizontal => r,
        Orientation::MirrorHorizontal => mirrored(r),
        Orientation::Rotate180 => half_turned(r),
        Orientation::MirrorVertical => upended(r),
        Orientation::MirrorHorizontalAndRotate270Cw => three_quarter_turned(mirrored(r)),
        Orientation::Rotate90Cw => quarter_turned(r),
        Orientation::MirrorHorizontalAndRotate90Cw => quarter_turned(mirrored(r)),
        Orientation::Rotate270Cw => three_quarter_turned(r),
    }
}

/// The orientations with a mirror can be written with either mirror, and the
/// two quarter turns undo each other: the mirror image turned a quarter
/// clockwise is the image upside down turned three quarters; the image
/// upside down is the mirror image turned by a half; and correcting for
/// `Rotate270Cw` after `Rotate90Cw` gives back an image whose pixel container
/// holds the pixels and nothing more.
pub proof fn lemma_orientations(r: Raster)
    requires
        r.layout is Some,
        0 <= r.width,
        0 <= r.height,
    ensures
        oriented(r, Orientation::MirrorHorizontalAndRotate90Cw) == three_quarter_turned(upended(r)),
        oriented(r, Orientation::MirrorHorizontalAndRotate270Cw) == quarter_turned(upended(r)),
        oriented(r, Orientation::MirrorVertical) == oriented(
            oriented(r, Orientation::MirrorHorizontal),
            Orientation::Rotate180,
        ),
        oriented(oriented(r, Orientation::Rotate90Cw), Orientation::Rotate90Cw) == oriented(r, Orientation::Rotate180),
        container_is_exact(r) ==> oriented(oriented(r, Orientation::Rotate90Cw), Orientation::Rotate270Cw) == r,
        container_is_exact(r) ==> oriented(oriented(r, Orientation::MirrorHorizontal), Orientation::MirrorHorizontal)
            == r,
{
    lemma_mirror_and_turn(r);
    lemma_quarter_turns(r);
    lemma_twice_is_nothing_if_exact(r);
}

/// Mirroring twice gives back an image whose pixel container holds the pixels
/// and nothing more.
proof fn lemma_twice_is_nothing_if_exact(r: Raster)
    requires
        0 <= r.width,
        0 <= r.height,
    ensures
        container_is_exact(r) ==> mirrored(mirrored(r)) == r,
{
    if container_is_exact(r) {
        lemma_twice_is_nothing(r);
    }
}

/// Whether correcting for an orientation exchanges width and height.
pub open spec fn turns_sideways(o: Orientation) -> bool {
    5 <= o.code() <= 8
}

/// Corrects an image for an orientation. The four orientations that involve
/// a quarter turn exchange width and height; the layout stays.
pub fn apply_orientation(img: DynamicImage, o: Orientation) -> (out: DynamicImage)
    ensures
        raster_of(out) == oriented(raster_of(img), o),
        pixel_layout(out) == pixel_layout(img),
        pixel_width(out) == if turns_sideways(o) {
            pixel_height(img)
        } else {
            pixel_width(img)
        },
        pixel_height(out) == if turns_sideways(o) {
            pixel_width(img)
        } else {
            pixel_height(img)
        },
{
    match o {
        Orientation::Horizontal => img,
        Orientation::MirrorHorizontal => image_fliph(&img),
        Orientation::Rotate180 => image_rotate180(&img),
        Orientation::MirrorVertical => image_flipv(&img),
        Orientation::MirrorHorizontalAndRotate270Cw => {
            let mirrored = image_fliph(&img);
            image_rotate270(&mirrored)
        },
        Orientation::Rotate90Cw => image_rotate90(&img),
        Orientation::MirrorHorizontalAndRotate90Cw => {
            let mirrored = image_fliph(&img);
            image_rotate90(&mirrored)
        },
        Orientation::Rotate270Cw => image_rotate270(&img),
    }
}

/// The filter that a resize asks for, `Lanczos3` where it asks for none.
pub open spec fn filter_or_default(filter: Option<ResizeFilterType>) -> ResizeFilterType {
    match filter {
        Some(filter) => filter,
        None => ResizeFilterType::Lanczos3,
    }
}

/// The box that a resize of a `width` by `height` image aims at: the width
/// that is asked for with the height that is asked for or, where none is, the
/// one that keeps the aspect ratio.
pub open spec fn resize_box(options: ResizeOptions, width: int, height: int) -> (u32, u32) {
    (
        options.width,
        match options.height {
            Some(h) => h,
            None => spec_scaled_height(options.width as int, width, height) as u32,
        },
    )
}

/// A resize can be carried out: the buffers that it takes are within what an
/// allocation can hold, and an image that is to cover a box has pixels.
pub open spec fn resize_feasible(options: ResizeOptions, width: int, height: int) -> bool {
    let target = resize_box(options, width, height);
    match fit_or_default(options.fit) {
        ResizeFit::Cover => {
            let cover = spec_resize_dimensions(width, height, target.0 as int, target.1 as int, true);
            &&& width > 0
            &&& height > 0
            &&& buffer_fits(cover.0 + 1, cover.1 + 1)
            &&& buffer_fits(width, cover.1 + 1)
        },
        ResizeFit::Fill => buffer_fits(target.0 as int, target.1 as int) && buffer_fits(width, target.1 as int),
        ResizeFit::Inside => buffer_fits(target.0 + 1, target.1 + 1) && buffer_fits(width, target.1 + 1),
    }
}

/// The image that is scaled to cover the box stays under the largest side,
/// so that nothing is lost when it is cut to the box.
pub open spec fn covers_plainly(width: int, height: int, target: (u32, u32)) -> bool {
    let cover = spec_resize_dimensions(width, height, target.0 as int, target.1 as int, true);
    cover.0 + 1 < max_side() && cover.1 + 1 < max_side()
}

/// The image that a resize gives: scaled to cover the box and cut to it,
/// stretched to the box, or scaled to fit inside the box. For every filter it
/// is the image in its size; for a filter with an exact kernel in its pixels
/// too.
pub open spec fn resized(r: Raster, options: ResizeOptions) -> Raster {
    let target = resize_box(options, r.width, r.height);
    let filter = filter_or_default(options.filter);
    match fit_or_default(options.fit) {
        ResizeFit::Cover => resized_to_fill(r, target.0, target.1, filter),
        ResizeFit::Fill => resized_exact(r, target.0, target.1, filter),
        ResizeFit::Inside => resized_inside(r, target.0, target.1, filter),
    }
}

/// `out` can be what a resize makes of `r`: an image of the size that the
/// resize gives, in the layout of `r`, and for a filter with an exact kernel
/// the image that the resize gives. What the other filters write differs
/// with the machine in the last digit.
pub open spec fn is_resized(r: Raster, options: ResizeOptions, out: Raster) -> bool {
    let exact = resized(r, options);
    &&& out.width == exact.width
    &&& out.height == exact.height
    &&& out.layout == r.layout
    &&& kernel_is_exact(filter_or_default(options.filter)) ==> out == exact
    &&& resized_size(r.width, r.height, options) matches Some(size) ==> (out.width, out.height) == size
    &&& fit_or_default(options.fit) != ResizeFit::Inside || container_is_exact(r) ==> container_is_exact(out)
}

/// The size that a resize of a `width` by `height` image gives, where it is
/// known without the resizer: the box for `Fill`; the box for `Cover`, unless
/// the scaled image reaches the largest side; and for `Inside` the size that
/// fits the box, where the resizer computes it exactly (`scales_plainly`).
pub open spec fn resized_size(width: int, height: int, options: ResizeOptions) -> Option<(int, int)> {
    let target = resize_box(options, width, height);
    match fit_or_default(options.fit) {
        ResizeFit::Fill => Some((target.0 as int, target.1 as int)),
        ResizeFit::Cover => if covers_plainly(width, height, target) {
            Some((target.0 as int, target.1 as int))
        } else {
            None
        },
        ResizeFit::Inside => if scales_plainly(width, height, target.0 as int, target.1 as int) {
            Some(spec_resize_dimensions(width, height, target.0 as int, target.1 as int, false))
        } else {
            None
        },
    }
}

/// Resizes an image with the standard resampler.
///
/// Fails with `InvalidDimensions` where the resize cannot be carried out
/// (`resize_feasible`). `Fill` gives exactly the box. `Inside` gives an image
/// within the box, a side of one pixel aside. `Cover` gives an image within
/// the box, and exactly the box unless the scaled image reaches the largest
/// side.
pub fn apply_resize(img: &DynamicImage, options: ResizeOptions) -> (out: Result<DynamicImage, Error>)
    ensures
        out is Ok <==> resize_feasible(options, pixel_width(*img), pixel_height(*img)),
        out matches Err(e) ==> e == Error::InvalidDimensions,
        out matches Ok(done) ==> {
            let target = resize_box(options, pixel_width(*img), pixel_height(*img));
            &&& is_resized(raster_of(*img), options, raster_of(done))
            &&& pixel_layout(done) == pixel_layout(*img)
            &&& fit_or_default(options.fit) == ResizeFit::Fill ==> pixel_width(done) == target.0 && pixel_height(done)
                == target.1
            &&& fit_or_default(options.fit) == ResizeFit::Inside ==> (pixel_width(done) <= target.0 || pixel_width(done)
                == 1) && (pixel_height(done) <= target.1 || pixel_height(done) == 1)
            &&& fit_or_default(options.fit) == ResizeFit::Cover ==> pixel_width(done) <= target.0 && pixel_height(done)
                <= target.1
            &&& fit_or_default(options.fit) == ResizeFit::Cover && covers_plainly(
                pixel_width(*img),
                pixel_height(*img),
                target,
            ) ==> pixel_width(done) == target.0 && pixel_height(done) == target.1
        },
{
    let width = image_width(img);
    let height = image_height(img);
    let nwidth = options.width;
    let nheight = match options.height {
        Some(h) => h,
        None => scaled_height(options.width, width, height),
    };
    let filter = match options.filter {
        Some(filter) => filter,
        None => ResizeFilterType::Lanczos3,
    };
    let fit = match options.fit {
        Some(fit) => fit,
        None => ResizeFit::Cover,
    };
    match fit {
        ResizeFit::Cover => {
            if width == 0 || height == 0 {
                return Err(Error::InvalidDimensions);
            }
            let cover = resize_dimensions(width, height, nwidth, nheight, true);
            if !fits_plus_one(cover.0, cover.1) || !fits_plus_one_row(width, cover.1) {
                return Err(Error::InvalidDimensions);
            }
            Ok(image_resize_to_fill(img, nwidth, nheight, filter))
        },
        ResizeFit::Fill => {
            if !fits_buffer(nwidth, nheight) || !fits_buffer(width, nheight) {
                return Err(Error::InvalidDimensions);
            }
            Ok(image_resize_exact(img, nwidth, nheight, filter))
        },
        ResizeFit::Inside => {
            if !fits_plus_one(nwidth, nheight) || !fits_plus_one_row(width, nheight) {
                return Err(Error::InvalidDimensions);
            }
            Ok(image_resize(img, nwidth, nheight, filter))
        },
    }
}

/// Whether a buffer one pixel wider and one higher is within what an
/// allocation can hold.
fn fits_plus_one(width: u32, height: u32) -> (out: bool)
    ensures
        out == buffer_fits(width + 1, height + 1),
{
    let w: u128 = width as u128 + 1;
    let h: u128 = height as u128 + 1;
    assert(w * h <= 0x1_0000_0000 * 0x1_0000_0000) by (nonlinear_arith)
        requires
            0 <= w <= 0x1_0000_0000,
            0 <= h <= 0x1_0000_0000,
    ;
    w * h * 16 <= isize::MAX as u128
}

/// Whether a buffer of the width and one higher is within what an
/// allocation can hold.
fn fits_plus_one_row(width: u32, height: u32) -> (out: bool)
    ensures
        out == buffer_fits(width as int, height + 1),
{
    let w: u128 = width as u128;
    let h: u128 = height as u128 + 1;
    assert(w * h <= 0x1_0000_0000 * 0x1_0000_0000) by (nonlinear_arith)
        requires
            0 <= w <= 0x1_0000_0000,
            0 <= h <= 0x1_0000_0000,
    ;
    w * h * 16 <= isize::MAX as u128
}

/// The image after the grayscale conversion and the inversion, as far as they
/// are asked for, in this order.
pub open spec fn toned(r: Raster, grayscale: bool, invert: bool) -> Raster {
    let gray = if grayscale {
        grayscaled(r)
    } else {
        r
    };
    if invert {
        inverted(gray)
    } else {
        gray
    }
}

/// The layout after the grayscale conversion, as far as it is asked for.
pub open spec fn tone_layout(layout: Option<JsColorType>, grayscale: bool) -> Option<JsColorType> {
    if grayscale {
        gray_layout(layout)
    } else {
        layout
    }
}

/// Converts to grayscale, then inverts, as far as each is asked for. The
/// size stays.
pub fn apply_tone(img: DynamicImage, grayscale: bool, invert: bool) -> (out: DynamicImage)
    ensures
        raster_of(out) == toned(raster_of(img), grayscale, invert),
        pixel_width(out) == pixel_width(img),
        pixel_height(out) == pixel_height(img),
        pixel_layout(out) == tone_layout(pixel_layout(img), grayscale),
{
    let mut work = if grayscale {
        image_grayscale(&img)
    } else {
        img
    };
    if invert {
        image_invert(&mut work);
    }
    work
}

/// The brightness change as the image takes it: an amount beyond the range
/// of a 16-bit sample is as good as the end of that range.
pub open spec fn narrowed(value: i32) -> i32 {
    if value > 65535 {
        65535i32
    } else if value < -65535 {
        (-65535) as i32
    } else {
        value
    }
}

/// The brightness change that the queue asks for cannot be carried out: it
/// is for samples that are whole numbers, and the layout has others.
pub open spec fn brightness_refused(layout: Option<JsColorType>, brightness: Option<i32>) -> bool {
    brightness is Some && !has_integer_samples(layout)
}

/// The image after the brightness change, as far as it is asked for.
pub open spec fn lit(r: Raster, brightness: Option<i32>) -> Raster {
    match brightness {
        Some(value) => brightened(r, narrowed(value)),
        None => r,
    }
}

/// `out` can be the image after the brightness change and the hue rotation,
/// each as far as it is asked for and in this order: an image of the size and
/// layout of `r`, and without a hue rotation the image that the brightness
/// change gives. What the hue rotation writes differs with the machine in the
/// last digit.
pub open spec fn adjusted(r: Raster, brightness: Option<i32>, hue: Option<i32>, out: Raster) -> bool {
    &&& out.width == r.width
    &&& out.height == r.height
    &&& out.layout == r.layout
    &&& hue is None ==> out == lit(r, brightness)
}

/// Changes the brightness, then rotates the hue, as far as each is asked
/// for. Size and layout stay.
///
/// Fails with `UnsupportedColorType` where the brightness of an image is to
/// be changed whose samples are no whole numbers: on such samples the
/// brightness change of the `image` crate stops the program.
pub fn apply_adjustments(img: DynamicImage, brightness: Option<i32>, hue: Option<i32>) -> (out: Result<
    DynamicImage,
    Error,
>)
    ensures
        out is Ok <==> !brightness_refused(pixel_layout(img), brightness),
        out matches Err(e) ==> e == Error::UnsupportedColorType,
        out matches Ok(done) ==> {
            &&& adjusted(raster_of(img), brightness, hue, raster_of(done))
            &&& pixel_width(done) == pixel_width(img)
            &&& pixel_height(done) == pixel_height(img)
            &&& pixel_layout(done) == pixel_layout(img)
        },
{
    let bright = match brightness {
        Some(value) => {
            if !samples_are_integers(image_layout(&img)) {
                return Err(Error::UnsupportedColorType);
            }
            let amount = if value > 65535 {
                65535
            } else if value < -65535 {
                -65535
            } else {
                value
            };
            image_brighten(&img, amount)
        },
        None => img,
    };
    match hue {
        Some(degrees) => Ok(image_huerotate(&bright, degrees)),
        None => Ok(bright),
    }
}

/// Whether the samples of a layout are whole numbers.
pub fn samples_are_integers(layout: Option<JsColorType>) -> (out: bool)
    ensures
        out == has_integer_samples(layout),
{
    match layout {
        Some(JsColorType::Rgb32F) => false,
        Some(JsColorType::Rgba32F) => false,
        Some(_) => true,
        None => false,
    }
}

/// The rectangle lies within an image of `width` by `height` pixels.
pub open spec fn crop_in_bounds(width: int, height: int, rect: (u32, u32, u32, u32)) -> bool {
    rect.0 + rect.2 <= width && rect.1 + rect.3 <= height
}

/// Cuts the rectangle (x, y, width, height) out of an image.
///
/// Fails with `CropOutOfBounds` where the rectangle reaches beyond the
/// image. The result has the size of the rectangle and the layout of the
/// image.
pub fn apply_crop(img: &DynamicImage, rect: (u32, u32, u32, u32)) -> (out: Result<DynamicImage, Error>)
    ensures
        out is Ok <==> crop_in_bounds(pixel_width(*img), pixel_height(*img), rect),
        out matches Err(e) ==> e == Error::CropOutOfBounds,
        out matches Ok(cut) ==> {
            &&& raster_of(cut) == cut_out(raster_of(*img), rect.0, rect.1, rect.2, rect.3)
            &&& pixel_width(cut) == rect.2
            &&& pixel_height(cut) == rect.3
            &&& pixel_layout(cut) == pixel_layout(*img)
        },
{
    let width = image_width(img);
    let height = image_height(img);
    if rect.0 as u64 + rect.2 as u64 > width as u64 || rect.1 as u64 + rect.3 as u64 > height as u64 {
        return Err(Error::CropOutOfBounds);
    }
    Ok(image_crop(img, rect.0, rect.1, rect.2, rect.3))
}

/// The image with the decoded overlays laid over it in the order of the
/// queue, each at its place.
pub open spec fn overlaid_all(r: Raster, tops: Seq<Raster>, overlays: Seq<OverlayView>) -> Raster
    decreases tops.len(),
{
    if tops.len() == 0 || overlays.len() == 0 {
        r
    } else {
        overlaid(
            overlaid_all(r, tops.drop_last(), overlays.drop_last()),
            tops.last(),
            overlays.last().x,
            overlays.last().y,
        )
    }
}

/// Every overlay is laid over what the overlays before it have made of the
/// image (`laid_over`): nothing changes beside an overlay, and under an
/// opaque pixel of an overlay the result is that pixel.
pub open spec fn laid_over_all(r: Raster, tops: Seq<Raster>, overlays: Seq<OverlayView>) -> bool
    decreases tops.len(),
{
    if tops.len() == 0 || overlays.len() == 0 {
        true
    } else {
        &&& laid_over_all(r, tops.drop_last(), overlays.drop_last())
        &&& laid_over(
            overlaid_all(r, tops.drop_last(), overlays.drop_last()),
            tops.last(),
            overlays.last().x,
            overlays.last().y,
            overlaid_all(r, tops, overlays),
        )
    }
}

/// `top` can be the image that an overlay is decoded to: the samples that
/// come with an overlay in AVIF, and for a container that decodes exactly
/// the image that its decoder gives.
pub open spec fn is_decoded_overlay(top: Raster, overlay: OverlayView) -> bool {
    &&& sniffed(overlay.source) is Some
    &&& is_exact_file(overlay.source) ==> Some(top) == decoded_image(overlay.source)
    &&& sniffed(overlay.source) == Some(SourceFormat::Avif) ==> {
        &&& overlay.avif matches Some(pixels)
        &&& avif_samples_fit(pixels.width as int, pixels.height as int, pixels.samples.len() as int)
        &&& top.width == pixels.width
        &&& top.height == pixels.height
        &&& top.layout == Some(avif_layout(pixels.width as int, pixels.height as int, pixels.samples.len() as int))
        &&& top.bytes == pixels.samples
    }
}

/// The decoding of the overlay can fail: it is not so that its container
/// decodes exactly and its decoder gives an image.
pub open spec fn overlay_can_fail(overlay: OverlayView) -> bool {
    !(is_exact_file(overlay.source) && decoded_image(overlay.source) is Some)
}

/// `e` is an error of decoding one of the overlays, which can fail.
pub open spec fn overlays_fail(overlays: Seq<OverlayView>, e: Error) -> bool {
    &&& e == Error::UnknownFormat || e is DecodeFailed
    &&& exists|i: int| 0 <= i < overlays.len() && overlay_can_fail(#[trigger] overlays[i])
}

/// `out` can be `r` with the overlays of the queue laid over it in their
/// order: with the decoded overlays `tops`, each of which is what its decoder
/// gave.
pub open spec fn overlaid_with(r: Raster, tops: Seq<Raster>, overlays: Seq<OverlayView>, out: Raster) -> bool {
    &&& tops.len() == overlays.len()
    &&& forall|i: int| 0 <= i < tops.len() ==> is_decoded_overlay(#[trigger] tops[i], overlays[i])
    &&& out == overlaid_all(r, tops, overlays)
    &&& laid_over_all(r, tops, overlays)
}

/// Decodes an overlay, as an input of its own whose EXIF is parsed. An
/// overlay in AVIF is made of the samples that come with it.
///
/// Fails as the decoding of any input fails: with `UnknownFormat` where the
/// bytes match no container, and with `DecodeFailed` where the decoder of the
/// container rejects them, or where an overlay in AVIF comes without samples
/// or with too few of them.
pub fn decode_overlay(overlay: &Overlay) -> (out: Result<DynamicImage, Error>)
    ensures
        sniffed(overlay.source@) is None ==> out == Err::<DynamicImage, Error>(Error::UnknownFormat),
        sniffed(overlay.source@) == Some(SourceFormat::Avif) ==> match overlay.avif {
            Some(pixels) => {
                &&& out is Ok <==> avif_samples_fit(
                    pixels.width as int,
                    pixels.height as int,
                    pixels.samples@.len() as int,
                )
                &&& out matches Ok(img) ==> {
                    &&& pixel_width(img) == pixels.width
                    &&& pixel_height(img) == pixels.height
                    &&& pixel_layout(img) == Some(
                        avif_layout(pixels.width as int, pixels.height as int, pixels.samples@.len() as int),
                    )
                    &&& pixel_bytes(img) == pixels.samples@
                }
            },
            None => out is Err,
        },
        sniffed(overlay.source@) matches Some(format) ==> (out matches Err(e) ==> e matches Error::DecodeFailed {
            source: container,
            ..
        } && container == format),
        is_exact_file(overlay.source@) ==> (out is Ok <==> decoded_image(overlay.source@) is Some),
        out matches Ok(img) ==> is_decoded_overlay(raster_of(img), overlay@),
        out matches Err(e) ==> e == Error::UnknownFormat || e is DecodeFailed,
{
    let mut session = ThreadsafeDynamicImage::new(overlay.source.clone());
    match &overlay.avif {
        Some(pixels) => {
            session.supply_avif(pixels.width, pixels.height, pixels.samples.clone(), true)?;
        },
        None => {},
    }
    proof {
        session.lemma_view_of_image();
    }
    session.get(true)?;
    proof {
        session.lemma_view_of_image();
    }
    match session.into_image() {
        Some(img) => Ok(img),
        None => Err(Error::UnknownFormat),
    }
}

/// Lays the overlays of the queue over an image, in their order. Size and
/// layout of the image stay.
///
/// Fails where an overlay cannot be decoded, with the error of the decoding,
/// and on no other input.
pub fn apply_overlays(img: DynamicImage, overlays: &Vec<Overlay>) -> (out: Result<DynamicImage, Error>)
    ensures
        out matches Ok(done) ==> {
            &&& exists|tops: Seq<Raster>| #[trigger]
                overlaid_with(raster_of(img), tops, overlays_view(overlays@), raster_of(done))
            &&& pixel_width(done) == pixel_width(img)
            &&& pixel_height(done) == pixel_height(img)
            &&& pixel_layout(done) == pixel_layout(img)
        },
        out matches Err(e) ==> overlays_fail(overlays_view(overlays@), e),
{
    let mut work = img;
    let ghost mut tops: Seq<Raster> = Seq::empty();
    let mut i: usize = 0;
    while i < overlays.len()
        invariant
            i <= overlays.len(),
            tops.len() == i,
            forall|k: int| 0 <= k < i ==> is_decoded_overlay(#[trigger] tops[k], overlays_view(overlays@)[k]),
            raster_of(work) == overlaid_all(raster_of(img), tops, overlays_view(overlays@).take(i as int)),
            laid_over_all(raster_of(img), tops, overlays_view(overlays@).take(i as int)),
            pixel_width(work) == pixel_width(img),
            pixel_height(work) == pixel_height(img),
            pixel_layout(work) == pixel_layout(img),
        decreases overlays.len() - i,
    {
        let top = match decode_overlay(&overlays[i]) {
            Ok(top) => top,
            Err(e) => {
                assert(overlay_can_fail(overlays_view(overlays@)[i as int]));
                return Err(e);
            },
        };
        let ghost before = raster_of(work);
        image_overlay(&mut work, &top, overlays[i].x, overlays[i].y);
        proof {
            let views = overlays_view(overlays@);
            let grown = tops.push(raster_of(top));
            assert(grown.drop_last() == tops);
            assert(views.take(i + 1).drop_last() == views.take(i as int));
            assert(views.take(i + 1).last() == overlays[i as int]@);
            tops = grown;
        }
        i += 1;
    }
    assert(overlays_view(overlays@).take(overlays.len() as int) == overlays_view(overlays@));
    assert(overlaid_with(raster_of(img), tops, overlays_view(overlays@), raster_of(work)));
    Ok(work)
}

/// The image in front of the resizes: corrected for the orientation, where
/// there is one to correct for.
pub open spec fn upright(start: Raster, orientation: Option<Orientation>) -> Raster {
    match orientation {
        Some(o) => oriented(start, o),
        None => start,
    }
}

/// The image behind the standard resize, where one is asked for: for every
/// filter in its size, for a filter with an exact kernel in its pixels too.
pub open spec fn after_resize(r: Raster, q: QueueView) -> Raster {
    match q.resize {
        Some(options) => resized(r, options),
        None => r,
    }
}

/// `out` can be the image behind the standard resize, where one is asked for.
pub open spec fn is_after_resize(r: Raster, q: QueueView, out: Raster) -> bool {
    match q.resize {
        Some(options) => is_resized(r, options, out),
        None => out == r,
    }
}

/// `fast` can be what the fast resizer made of `r`: the resize can be carried
/// out, and `fast` has the size that it writes, in 8-bit RGBA.
pub open spec fn fast_resized(r: Raster, options: FastResizeOptions, fast: Raster) -> bool {
    &&& fast_resize_feasible(r.width, r.height, fast_resize_size(r.width, r.height, options))
    &&& (fast.width, fast.height) == fast_resize_size(r.width, r.height, options)
    &&& fast.layout == Some(JsColorType::Rgba8)
    &&& container_is_exact(fast)
}

/// The error that the first steps end in before any pixel is touched, if
/// any: an orientation that is no orientation, or a resize that cannot be
/// carried out.
pub open spec fn shape_refused(start: Raster, q: QueueView, exif: Option<u16>) -> Option<Error> {
    match effective_orientation(q, exif) {
        Err(e) => Some(e),
        Ok(orientation) => {
            let r0 = upright(start, orientation);
            let r1 = after_resize(r0, q);
            if q.resize matches Some(options) && !resize_feasible(options, r0.width, r0.height) {
                Some(Error::InvalidDimensions)
            } else if q.fast_resize matches Some(options) && !fast_resize_feasible(
                r1.width,
                r1.height,
                fast_resize_size(r1.width, r1.height, options),
            ) {
                Some(Error::InvalidDimensions)
            } else {
                None
            }
        },
    }
}

/// `out` can be what the steps behind the standard resize make of `r1`: the
/// fast resize, the grayscale conversion and the inversion, each as far as it
/// is asked for and in this order. What the fast resizer writes is known by
/// its size only.
pub open spec fn shaped_from(r1: Raster, q: QueueView, out: Raster) -> bool {
    match q.fast_resize {
        None => {
            &&& out == toned(r1, q.grayscale, q.invert)
            &&& out.width == r1.width
            &&& out.height == r1.height
            &&& out.layout == tone_layout(r1.layout, q.grayscale)
        },
        Some(options) => exists|fast: Raster|
            {
                &&& #[trigger] fast_resized(r1, options, fast)
                &&& out == toned(fast, q.grayscale, q.invert)
                &&& out.width == fast.width
                &&& out.height == fast.height
                &&& out.layout == tone_layout(fast.layout, q.grayscale)
            },
    }
}

/// `out` can be what the first steps make of `start`: the orientation
/// correction, the standard resize, the fast resize, the grayscale
/// conversion and the inversion, each as far as it is asked for and in this
/// order.
pub open spec fn shaped(start: Raster, q: QueueView, exif: Option<u16>, out: Raster) -> bool {
    &&& shape_refused(start, q, exif) is None
    &&& effective_orientation(q, exif) matches Ok(orientation)
    &&& exists|r1: Raster| #[trigger] is_after_resize(upright(start, orientation), q, r1) && shaped_from(r1, q, out)
}

/// Applies the first steps to an image: the orientation correction, the
/// standard resize, the fast resize, the grayscale conversion and the
/// inversion, each as far as the queue asks for it and in this order. `exif`
/// is the orientation that EXIF gives.
///
/// Fails with `InvalidOrientation` where the orientation to correct for is
/// none, and with `InvalidDimensions` where a resize cannot be carried out;
/// on no other image.
pub fn shape(img: DynamicImage, args: &ImageTransformArgs, exif: Option<u16>) -> (out: Result<DynamicImage, Error>)
    ensures
        out is Ok <==> shape_refused(raster_of(img), args@, exif) is None,
        out matches Err(e) ==> shape_refused(raster_of(img), args@, exif) == Some(e),
        out matches Ok(done) ==> shaped(raster_of(img), args@, exif, raster_of(done)),
{
    let orientation = resolve_orientation(args, exif)?;
    let r0 = match orientation {
        Some(o) => apply_orientation(img, o),
        None => img,
    };
    let r1 = match args.resize {
        Some(options) => apply_resize(&r0, options)?,
        None => r0,
    };
    assert(is_after_resize(upright(raster_of(img), orientation), args@, raster_of(r1)));
    match args.fast_resize {
        Some(options) => {
            let fast = fast_resize(&r1, options)?;
            let done = apply_tone(fast, args.grayscale, args.invert);
            assert(fast_resized(raster_of(r1), options, raster_of(fast)));
            assert(shaped_from(raster_of(r1), args@, raster_of(done)));
            Ok(done)
        },
        None => {
            let done = apply_tone(r1, args.grayscale, args.invert);
            assert(shaped_from(raster_of(r1), args@, raster_of(done)));
            Ok(done)
        },
    }
}

/// The error that the last steps end in before any overlay is decoded, if
/// any: a brightness change that the image does not take, or a crop rectangle
/// that reaches beyond the image.
///
/// The two depend on the size and the layout of the image alone, which the
/// brightness change and the hue rotation leave as they are.
pub open spec fn complete_refused(width: int, height: int, layout: Option<JsColorType>, q: QueueView) -> Option<
    Error,
> {
    if brightness_refused(layout, q.brightness) {
        Some(Error::UnsupportedColorType)
    } else if q.crop matches Some(rect) && !crop_in_bounds(width, height, rect) {
        Some(Error::CropOutOfBounds)
    } else {
        None
    }
}

/// The image in front of the overlays: `r` after the crop, where one is
/// asked for.
pub open spec fn trimmed(r: Raster, crop: Option<(u32, u32, u32, u32)>) -> Raster {
    match crop {
        Some(rect) => cut_out(r, rect.0, rect.1, rect.2, rect.3),
        None => r,
    }
}

/// `out` can be what the last steps make of `work`: the brightness change,
/// the hue rotation, the crop and the overlays, each as far as it is asked
/// for and in this order. The decoded overlays are what their decoders gave.
pub open spec fn completed(work: Raster, q: QueueView, out: Raster) -> bool {
    &&& complete_refused(work.width, work.height, work.layout, q) is None
    &&& exists|mid: Raster, tops: Seq<Raster>|
        adjusted(work, q.brightness, q.huerotate, mid) && #[trigger] overlaid_with(
            trimmed(mid, q.crop),
            tops,
            q.overlay,
            out,
        )
}

/// `e` is an error in which the last steps can end on `work`: the error for
/// a brightness change or a crop that cannot be carried out; else, where
/// overlays are asked for, the error of decoding one.
pub open spec fn complete_fails(work: Raster, q: QueueView, e: Error) -> bool {
    match complete_refused(work.width, work.height, work.layout, q) {
        Some(refusal) => e == refusal,
        None => overlays_fail(q.overlay, e),
    }
}

/// Applies the last steps to an image: the brightness change, the hue
/// rotation, the crop and the overlays, each as far as the queue asks for it
/// and in this order.
///
/// Fails with `UnsupportedColorType` where the brightness of an image is to
/// be changed whose samples are no whole numbers, with `CropOutOfBounds`
/// where the crop rectangle reaches beyond the image, and with the error of
/// the decoding where an overlay cannot be decoded.
pub fn complete(img: DynamicImage, args: &ImageTransformArgs) -> (out: Result<DynamicImage, Error>)
    ensures
        complete_refused(pixel_width(img), pixel_height(img), pixel_layout(img), args@) is Some ==> out is Err,
        out matches Ok(done) ==> completed(raster_of(img), args@, raster_of(done)),
        out matches Err(e) ==> complete_fails(raster_of(img), args@, e),
{
    let r = apply_adjustments(img, args.brightness, args.huerotate)?;
    let ghost mid = raster_of(r);
    let cut = match args.crop {
        Some(rect) => apply_crop(&r, rect)?,
        None => r,
    };
    assert(raster_of(cut) == trimmed(mid, args@.crop));
    assert(overlays_view(args.overlay@).len() == args.overlay@.len());
    let out = apply_overlays(cut, &args.overlay);
    proof {
        if out is Ok {
            let done = raster_of(out->Ok_0);
            let tops = choose|tops: Seq<Raster>| #[trigger]
                overlaid_with(raster_of(cut), tops, overlays_view(args.overlay@), done);
            assert(overlaid_with(trimmed(mid, args@.crop), tops, args@.overlay, done));
        }
    }
    out
}

} // verus!
