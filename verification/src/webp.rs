//! What is handed to the WebP encoder: 8-bit RGB or RGBA samples.
use crate::error::Error;
use crate::raster::Raster;
use crate::raster::image_bytes;
use crate::raster::image_height;
use crate::raster::image_layout;
use crate::raster::image_to_rgb8;
use crate::raster::image_to_rgba8;
use crate::raster::image_width;
use crate::raster::pixel_height;
use crate::raster::pixel_layout;
use crate::raster::pixel_width;
use crate::raster::raster_of;
use crate::raster::rgb8_samples;
use crate::raster::rgba8_samples;
use crate::transformer::JsColorType;
use image::DynamicImage;
use vstd::prelude::*;

verus! {

/// An encode that is ready to be handed to the WebP encoder.
pub struct WebpJob {
    /// The samples, row by row.
    pub pixels: Vec<u8>,
    pub width: u32,
    pub height: u32,
    /// The bytes from the start of one row to the start of the next.
    pub stride: u64,
    /// Whether a pixel has four samples, the last one alpha, or three.
    pub alpha: bool,
    /// The quality factor of a lossy encode, `None` for a lossless one.
    pub quality: Option<u32>,
}

/// The layouts that WebP takes: 8-bit RGB and RGBA, and 8-bit luminance with
/// or without alpha, which converts to them.
pub open spec fn webp_supports(layout: Option<JsColorType>) -> bool {
    match layout {
        Some(JsColorType::Rgb8) | Some(JsColorType::Rgba8) | Some(JsColorType::L8) | Some(JsColorType::La8) => true,
        _ => false,
    }
}

/// Whether the samples that are handed to the encoder have an alpha channel.
pub open spec fn webp_alpha(layout: Option<JsColorType>) -> bool {
    layout == Some(JsColorType::Rgba8) || layout == Some(JsColorType::La8)
}

/// The samples that are handed to the encoder: the container of an RGB or
/// RGBA image as it is, luminance converted to RGB, and luminance with alpha
/// converted to RGBA.
pub open spec fn webp_pixels(r: Raster) -> Seq<u8> {
    match r.layout {
        Some(JsColorType::L8) => rgb8_samples(r),
        Some(JsColorType::La8) => rgba8_samples(r),
        _ => r.bytes,
    }
}

/// Prepares an encode with the given quality, or a lossless one.
fn webp_job(input: &DynamicImage, quality: Option<u32>) -> (out: Result<WebpJob, Error>)
    ensures
        out is Ok <==> webp_supports(pixel_layout(*input)),
        out matches Err(e) ==> e == Error::UnsupportedColorType,
        out matches Ok(job) ==> {
            &&& job.width == pixel_width(*input)
            &&& job.height == pixel_height(*input)
            &&& job.alpha == webp_alpha(pixel_layout(*input))
            &&& job.stride == job.width * if job.alpha {
                4int
            } else {
                3int
            }
            &&& job.pixels@ == webp_pixels(raster_of(*input))
            &&& job.pixels@.len() >= job.stride * job.height
            &&& job.quality == quality
        },
{
    let width = image_width(input);
    let height = image_height(input);
    let (pixels, alpha) = match image_layout(input) {
        Some(JsColorType::Rgb8) => (image_bytes(input), false),
        Some(JsColorType::Rgba8) => (image_bytes(input), true),
        Some(JsColorType::L8) => (image_to_rgb8(input), false),
        Some(JsColorType::La8) => (image_to_rgba8(input), true),
        _ => {
            return Err(Error::UnsupportedColorType);
        },
    };
    let stride: u64 = if alpha {
        (width as u64) * 4
    } else {
        (width as u64) * 3
    };
    assert(width * 4 * height == width * height * 4 && width * 3 * height == width * height * 3) by (nonlinear_arith);
    Ok(WebpJob { pixels, width, height, stride, alpha, quality })
}

/// Prepares the lossy encode of an image as WebP, with a quality factor from
/// 0 to 100.
///
/// Fails with `UnsupportedColorType` for an image in a layout that WebP does
/// not take.
pub fn encode_webp_inner(input: &DynamicImage, quality_factor: u32) -> (out: Result<WebpJob, Error>)
    ensures
        out is Ok <==> webp_supports(pixel_layout(*input)),
        out matches Err(e) ==> e == Error::UnsupportedColorType,
        out matches Ok(job) ==> {
            &&& job.width == pixel_width(*input)
            &&& job.height == pixel_height(*input)
            &&& job.alpha == webp_alpha(pixel_layout(*input))
            &&& job.stride == job.width * if job.alpha {
                4int
            } else {
                3int
            }
            &&& job.pixels@ == webp_pixels(raster_of(*input))
            &&& job.pixels@.len() >= job.stride * job.height
            &&& job.quality == Some(quality_factor)
        },
{
    webp_job(input, Some(quality_factor))
}

/// Prepares the lossless encode of an image as WebP.
///
/// Fails with `UnsupportedColorType` for an image in a layout that WebP does
/// not take.
pub fn lossless_encode_webp_inner(input: &DynamicImage) -> (out: Result<WebpJob, Error>)
    ensures
        out is Ok <==> webp_supports(pixel_layout(*input)),
        out matches Err(e) ==> e == Error::UnsupportedColorType,
        out matches Ok(job) ==> {
            &&& job.width == pixel_width(*input)
            &&& job.height == pixel_height(*input)
            &&& job.alpha == webp_alpha(pixel_layout(*input))
            &&& job.stride == job.width * if job.alpha {
                4int
            } else {
                3int
            }
            &&& job.pixels@ == webp_pixels(raster_of(*input))
            &&& job.pixels@.len() >= job.stride * job.height
            &&& job.quality is None
        },
{
    webp_job(input, None)
}

} // verus!
