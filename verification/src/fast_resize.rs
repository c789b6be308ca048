//! Resizing through `fast_image_resize`, whose kernels run on the best
//! instructions that the processor offers.
use crate::error::Error;
use crate::raster::buffer_fits;
use crate::raster::image_height;
use crate::raster::image_to_rgba8;
use crate::raster::image_width;
use crate::raster::pixel_bytes;
use crate::raster::pixel_height;
use crate::raster::pixel_layout;
use crate::raster::pixel_width;
use crate::raster::rgba8_from_vec;
use crate::transformer::JsColorType;
use crate::utils::lemma_side_product;
use crate::utils::resize_dimensions;
use crate::utils::scaled_height;
use crate::utils::spec_resize_dimensions;
use crate::utils::spec_scaled_height;
use fast_image_resize::MulDiv;
use fast_image_resize::PixelType;
use fast_image_resize::ResizeAlg;
use fast_image_resize::Resizer;
use fast_image_resize::images::Image;
use image::DynamicImage;
use vstd::prelude::*;

verus! {

/// The convolution kernels of the fast resize.
#[derive(Clone, Copy, Debug, PartialEq, Eq, Structural)]
pub enum FastResizeFilter {
    /// Each pixel of source image contributes to one pixel of the
    /// destination image with identical weights. For upscaling is equivalent
    /// of `Nearest` resize algorithm.
    Box,
    /// Bilinear filter calculate the output pixel value using linear
    /// interpolation on all pixels that may contribute to the output value.
    Bilinear,
    /// Hamming filter has the same performance as `Bilinear` filter while
    /// providing the image downscaling quality comparable to bicubic
    /// (`CatmulRom` or `Mitchell`). Produces a sharper image than `Bilinear`,
    /// doesn't have dislocations on local level like with `Box`.
    /// The filter does not show good quality for the image upscaling.
    Hamming,
    /// Catmull-Rom bicubic filter calculate the output pixel value using
    /// cubic interpolation on all pixels that may contribute to the output
    /// value.
    CatmullRom,
    /// Mitchell-Netravali bicubic filter calculate the output pixel value
    /// using cubic interpolation on all pixels that may contribute to the
    /// output value.
    Mitchell,
    /// Lanczos3 filter calculate the output pixel value using a high-quality
    /// Lanczos filter (a truncated sinc) on all pixels that may contribute
    /// to the output value.
    Lanczos3,
}

impl Default for FastResizeFilter {
    fn default() -> (out: Self)
        ensures
            out == FastResizeFilter::Lanczos3,
    {
        FastResizeFilter::Lanczos3
    }
}

/// How an image's aspect ratio is reconciled with the box it is resized to.
#[derive(Clone, Copy, Debug, PartialEq, Eq, Structural)]
pub enum ResizeFit {
    /// (default) Preserving aspect ratio
    /// ensure the image covers both provided dimensions by cropping/clipping to fit.
    Cover,
    /// Ignore the aspect ratio of the input and stretch to both provided dimensions.
    Fill,
    /// Preserving aspect ratio
    /// resize the image to be as large as possible while ensuring its dimensions are less than or equal to both those specified.
    Inside,
}

impl Default for ResizeFit {
    fn default() -> (out: Self)
        ensures
            out == ResizeFit::Cover,
    {
        ResizeFit::Cover
    }
}

/// What a fast resize is asked for.
#[derive(Clone, Copy, Debug, PartialEq, Eq, Structural)]
pub struct FastResizeOptions {
    pub width: u32,
    pub height: Option<u32>,
    pub filter: Option<FastResizeFilter>,
    pub fit: Option<ResizeFit>,
}

/// The fit that is asked for, `Cover` where none is.
pub open spec fn fit_or_default(fit: Option<ResizeFit>) -> ResizeFit {
    match fit {
        Some(fit) => fit,
        None => ResizeFit::Cover,
    }
}

/// The kernel that is asked for, `Lanczos3` where none is.
pub open spec fn kernel_or_default(filter: Option<FastResizeFilter>) -> FastResizeFilter {
    match filter {
        Some(filter) => filter,
        None => FastResizeFilter::Lanczos3,
    }
}

/// The size of the image that a fast resize of a `width` by `height` image
/// writes: the width that is asked for with the height that is asked for or,
/// where none is, the one that keeps the aspect ratio; for `Inside`, the size
/// to which the image shrinks or grows to fit that box.
pub open spec fn fast_resize_size(width: int, height: int, options: FastResizeOptions) -> (int, int) {
    let dst_height = match options.height {
        Some(h) => h as int,
        None => spec_scaled_height(options.width as int, width, height),
    };
    match fit_or_default(options.fit) {
        ResizeFit::Inside => spec_resize_dimensions(width, height, options.width as int, dst_height, false),
        _ => (options.width as int, dst_height),
    }
}

/// A fast resize to `size` can be carried out: no side of the new image is
/// zero, and the new image and the two buffers between the old and the new
/// one are within what an allocation can hold.
pub open spec fn fast_resize_feasible(width: int, height: int, size: (int, int)) -> bool {
    &&& size.0 > 0
    &&& size.1 > 0
    &&& buffer_fits(size.0, size.1)
    &&& buffer_fits(width, size.1)
    &&& buffer_fits(size.0, height)
}

/// The size that a fast resize writes, or `InvalidDimensions` where it cannot
/// be carried out.
pub fn fast_resize_target(width: u32, height: u32, options: FastResizeOptions) -> (out: Result<(u32, u32), Error>)
    ensures
        out == if fast_resize_feasible(
            width as int,
            height as int,
            fast_resize_size(width as int, height as int, options),
        ) {
            let size = fast_resize_size(width as int, height as int, options);
            Ok::<(u32, u32), Error>((size.0 as u32, size.1 as u32))
        } else {
            Err(Error::InvalidDimensions)
        },
{
    let mut dst_width = options.width;
    let mut dst_height = match options.height {
        Some(h) => h,
        None => scaled_height(options.width, width, height),
    };
    let fit = match options.fit {
        Some(fit) => fit,
        None => ResizeFit::Cover,
    };
    match fit {
        ResizeFit::Inside => {
            let (w, h) = resize_dimensions(width, height, dst_width, dst_height, false);
            dst_width = w;
            dst_height = h;
        },
        _ => {},
    }
    if dst_width == 0 || dst_height == 0 {
        return Err(Error::InvalidDimensions);
    }
    if fits_buffer(dst_width, dst_height) && fits_buffer(width, dst_height) && fits_buffer(dst_width, height) {
        Ok((dst_width, dst_height))
    } else {
        Err(Error::InvalidDimensions)
    }
}

/// Whether a buffer of `width` by `height` pixels is within what an
/// allocation can hold.
pub fn fits_buffer(width: u32, height: u32) -> (out: bool)
    ensures
        out == buffer_fits(width as int, height as int),
{
    proof {
        lemma_side_product(width as int, height as int);
    }
    let bytes: u128 = (width as u128) * (height as u128) * 16;
    bytes <= isize::MAX as u128
}

/// `MulDiv::multiply_alpha_inplace` on an image of four 8-bit channels: the
/// color channels of every pixel multiplied by its alpha channel. The result
/// differs with the instructions that the processor offers, so only its
/// length is stated. The call fails on a buffer that is too short for the
/// pixels and on a pixel type without alpha, neither of which is handed to
/// it.
#[verifier::external_body]
pub(crate) fn multiply_alpha(width: u32, height: u32, rgba: Vec<u8>) -> (out: Result<Vec<u8>, String>)
    requires
        width * height * 4 <= rgba@.len(),
    ensures
        out is Ok,
        out matches Ok(v) ==> v@.len() == rgba@.len(),
{
    let mut img = Image::from_vec_u8(width, height, rgba, PixelType::U8x4).map_err(|e| e.to_string())?;
    MulDiv::default().multiply_alpha_inplace(&mut img).map_err(|e| e.to_string())?;
    Ok(img.into_vec())
}

/// `MulDiv::divide_alpha_inplace` on an image of four 8-bit channels: the
/// color channels of every pixel divided by its alpha channel. The result
/// differs with the instructions that the processor offers, so only its
/// length is stated. The call fails on a buffer that is too short for the
/// pixels and on a pixel type without alpha, neither of which is handed to
/// it.
#[verifier::external_body]
pub(crate) fn divide_alpha(width: u32, height: u32, rgba: Vec<u8>) -> (out: Result<Vec<u8>, String>)
    requires
        width * height * 4 <= rgba@.len(),
    ensures
        out is Ok,
        out matches Ok(v) ==> v@.len() == rgba@.len(),
{
    let mut img = Image::from_vec_u8(width, height, rgba, PixelType::U8x4).map_err(|e| e.to_string())?;
    MulDiv::default().divide_alpha_inplace(&mut img).map_err(|e| e.to_string())?;
    Ok(img.into_vec())
}

/// `Resizer::resize` with the source stretched over the destination: an
/// image of `size` pixels of four 8-bit channels, made of the `width` by
/// `height` image in `rgba` by convolution with `filter`. The result differs
/// with the instructions that the processor offers, so only its length is
/// stated. The call fails on a buffer that is too short for the pixels, on
/// images of two pixel types and on a part of the source that reaches beyond
/// it, none of which is handed to it.
#[verifier::external_body]
pub(crate) fn convolve_stretched(width: u32, height: u32, rgba: Vec<u8>, size: (u32, u32), filter: FastResizeFilter) -> (out:
    Result<Vec<u8>, String>)
    requires
        width * height * 4 <= rgba@.len(),
        fast_resize_feasible(width as int, height as int, (size.0 as int, size.1 as int)),
    ensures
        out is Ok,
        out matches Ok(v) ==> v@.len() == size.0 * size.1 * 4,
{
    let src = Image::from_vec_u8(width, height, rgba, PixelType::U8x4).map_err(|e| e.to_string())?;
    let mut dst = Image::new(size.0, size.1, PixelType::U8x4);
    let options = fast_image_resize::ResizeOptions::new().resize_alg(ResizeAlg::Convolution(match filter {
        FastResizeFilter::Box => fast_image_resize::FilterType::Box,
        FastResizeFilter::Bilinear => fast_image_resize::FilterType::Bilinear,
        FastResizeFilter::Hamming => fast_image_resize::FilterType::Hamming,
        FastResizeFilter::CatmullRom => fast_image_resize::FilterType::CatmullRom,
        FastResizeFilter::Mitchell => fast_image_resize::FilterType::Mitchell,
        FastResizeFilter::Lanczos3 => fast_image_resize::FilterType::Lanczos3,
    }));
    Resizer::new().resize(&src, &mut dst, Some(&options)).map_err(|e| e.to_string())?;
    Ok(dst.into_vec())
}

/// `Resizer::resize` with `ResizeOptions::fit_into_destination`: as
/// `convolve_stretched`, but of the source only the centred part with the
/// aspect ratio of the destination is used, so that nothing is distorted.
/// That part lies within the source, so the call does not fail on it.
#[verifier::external_body]
pub(crate) fn convolve_covering(width: u32, height: u32, rgba: Vec<u8>, size: (u32, u32), filter: FastResizeFilter) -> (out:
    Result<Vec<u8>, String>)
    requires
        width * height * 4 <= rgba@.len(),
        fast_resize_feasible(width as int, height as int, (size.0 as int, size.1 as int)),
    ensures
        out is Ok,
        out matches Ok(v) ==> v@.len() == size.0 * size.1 * 4,
{
    let src = Image::from_vec_u8(width, height, rgba, PixelType::U8x4).map_err(|e| e.to_string())?;
    let mut dst = Image::new(size.0, size.1, PixelType::U8x4);
    let options = fast_image_resize::ResizeOptions::new().fit_into_destination(None).resize_alg(ResizeAlg::Convolution(match filter {
        FastResizeFilter::Box => fast_image_resize::FilterType::Box,
        FastResizeFilter::Bilinear => fast_image_resize::FilterType::Bilinear,
        FastResizeFilter::Hamming => fast_image_resize::FilterType::Hamming,
        FastResizeFilter::CatmullRom => fast_image_resize::FilterType::CatmullRom,
        FastResizeFilter::Mitchell => fast_image_resize::FilterType::Mitchell,
        FastResizeFilter::Lanczos3 => fast_image_resize::FilterType::Lanczos3,
    }));
    Resizer::new().resize(&src, &mut dst, Some(&options)).map_err(|e| e.to_string())?;
    Ok(dst.into_vec())
}

/// What came of a step of the resizer: its bytes, or `InvalidDimensions`
/// where it rejected the image.
pub fn resizer_outcome(outcome: Result<Vec<u8>, String>) -> (out: Result<Vec<u8>, Error>)
    ensures
        out == match outcome {
            Ok(bytes) => Ok::<Vec<u8>, Error>(bytes),
            Err(_) => Err(Error::InvalidDimensions),
        },
{
    match outcome {
        Ok(bytes) => Ok(bytes),
        Err(_) => Err(Error::InvalidDimensions),
    }
}

/// Resizes an image with the fast resizer.
///
/// The pixels are taken as 8-bit RGBA. Their color channels are multiplied by
/// alpha before the resampling and divided by it afterwards, which avoids
/// fringes at transparent edges. `Cover` uses the centred part of the source
/// that has the aspect ratio of the new size, `Fill` stretches the source,
/// and `Inside` scales it to fit the box.
///
/// Fails with `InvalidDimensions` where a side of the new size is zero and
/// where the new size is larger than a buffer can be, and on no other image.
pub fn fast_resize(img: &DynamicImage, options: FastResizeOptions) -> (out: Result<DynamicImage, Error>)
    ensures
        out is Ok <==> fast_resize_feasible(
            pixel_width(*img),
            pixel_height(*img),
            fast_resize_size(pixel_width(*img), pixel_height(*img), options),
        ),
        out matches Ok(resized) ==> {
            &&& (pixel_width(resized), pixel_height(resized)) == fast_resize_size(
                pixel_width(*img),
                pixel_height(*img),
                options,
            )
            &&& pixel_layout(resized) == Some(JsColorType::Rgba8)
            &&& pixel_bytes(resized).len() == pixel_width(resized) * pixel_height(resized) * 4
        },
        out matches Err(e) ==> e == Error::InvalidDimensions,
{
    let width = image_width(img);
    let height = image_height(img);
    let size = fast_resize_target(width, height, options)?;
    let rgba8 = image_to_rgba8(img);
    let src = resizer_outcome(multiply_alpha(width, height, rgba8))?;
    let filter = match options.filter {
        Some(filter) => filter,
        None => FastResizeFilter::Lanczos3,
    };
    let fit = match options.fit {
        Some(fit) => fit,
        None => ResizeFit::Cover,
    };
    let resampled = match fit {
        ResizeFit::Cover => resizer_outcome(convolve_covering(width, height, src, size, filter))?,
        _ => resizer_outcome(convolve_stretched(width, height, src, size, filter))?,
    };
    let pixels = resizer_outcome(divide_alpha(size.0, size.1, resampled))?;
    match rgba8_from_vec(size.0, size.1, pixels) {
        Some(resized) => Ok(resized),
        None => Err(Error::InvalidDimensions),
    }
}

} // verus!
