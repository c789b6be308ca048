//! Encoding an image to the format that is asked for.
use crate::avif::AvifConfig;
use crate::avif::AvifJob;
use crate::avif::encode_avif_inner;
use crate::codecs::container_file;
use crate::codecs::encode_container;
use crate::codecs::encode_jpeg;
use crate::codecs::encode_outcome;
use crate::codecs::encode_png;
use crate::codecs::image_byte_len;
use crate::codecs::jpeg_file;
use crate::codecs::png_file;
use crate::error::Error;
use crate::geometry::bytes_per_pixel;
use crate::geometry::container_is_exact;
use crate::error::TargetFormat;
use crate::png::CompressionType;
use crate::png::FilterType;
use crate::png::PngEncodeOptions;
use crate::png::compression_or_default;
use crate::png::row_filter_or_default;
use crate::raster::Raster;
use crate::raster::image_bytes;
use crate::raster::image_height;
use crate::raster::image_layout;
use crate::raster::image_width;
use crate::raster::pixel_layout;
use crate::raster::raster_of;
use crate::transformer::JsColorType;
use crate::utils::lemma_side_product;
use crate::webp::WebpJob;
use crate::webp::encode_webp_inner;
use crate::webp::lossless_encode_webp_inner;
use crate::webp::webp_supports;
use image::DynamicImage;
use vstd::prelude::*;

verus! {

/// The format to encode to, with its settings.
#[derive(Clone, Copy, Debug, PartialEq, Eq, Structural)]
pub enum EncodeOptions {
    Png(PngEncodeOptions),
    /// With the quality, from 1 to 100.
    Jpeg(u32),
    /// Lossy, with the quality factor, from 0 to 100.
    Webp(u32),
    WebpLossless,
    Avif(Option<AvifConfig>),
    Bmp,
    Ico,
    Tiff,
    Pnm,
    Tga,
    Farbfeld,
    /// The bytes of the pixel container, without any framing.
    RawPixels,
}

/// What an encode gives: the finished bytes, or what is to be handed to an
/// encoder that this library has no access to.
pub enum EncodeOutput {
    /// The encoded file, or the raw pixels.
    Buffer(Vec<u8>),
    /// An encode for the WebP encoder.
    Webp(WebpJob),
    /// An encode for the AVIF encoder.
    Avif(AvifJob),
}

/// The format that the options ask for.
pub open spec fn target_of(options: EncodeOptions) -> TargetFormat {
    match options {
        EncodeOptions::Png(_) => TargetFormat::Png,
        EncodeOptions::Jpeg(_) => TargetFormat::Jpeg,
        EncodeOptions::Webp(_) => TargetFormat::Webp,
        EncodeOptions::WebpLossless => TargetFormat::WebpLossless,
        EncodeOptions::Avif(_) => TargetFormat::Avif,
        EncodeOptions::Bmp => TargetFormat::Bmp,
        EncodeOptions::Ico => TargetFormat::Ico,
        EncodeOptions::Tiff => TargetFormat::Tiff,
        EncodeOptions::Pnm => TargetFormat::Pnm,
        EncodeOptions::Tga => TargetFormat::Tga,
        EncodeOptions::Farbfeld => TargetFormat::Farbfeld,
        EncodeOptions::RawPixels => TargetFormat::RawPixels,
    }
}

/// The formats whose encoder this library calls itself.
pub open spec fn encodes_here(options: EncodeOptions) -> bool {
    match options {
        EncodeOptions::Webp(_) | EncodeOptions::WebpLossless | EncodeOptions::Avif(_) => false,
        _ => true,
    }
}

/// The quality that the JPEG encoder is given: the low eight bits of the
/// number.
pub open spec fn jpeg_quality(quality: u32) -> u8 {
    (quality % 256) as u8
}

/// The bytes that encoding an image gives, for the formats whose encoder this
/// library calls itself; `None` where the encoder fails, and for a pixel
/// container that is not exactly as long as its pixels where the encoder
/// insists on that.
pub open spec fn encoded_file(r: Raster, options: EncodeOptions) -> Option<Seq<u8>> {
    match options {
        EncodeOptions::RawPixels => Some(r.bytes),
        EncodeOptions::Png(o) => if container_is_exact(r) {
            png_file(r, compression_or_default(o.compression_type), row_filter_or_default(o.filter_type))
        } else {
            None
        },
        EncodeOptions::Jpeg(quality) => jpeg_file(r, jpeg_quality(quality)),
        EncodeOptions::Webp(_) | EncodeOptions::WebpLossless | EncodeOptions::Avif(_) => None,
        _ => if container_is_exact(r) {
            container_file(r, target_of(options))
        } else {
            None
        },
    }
}

/// The encode of an image to the format fails: the encoder that is called
/// here gives no file, or the image is in a layout that WebP or AVIF does not
/// take.
pub open spec fn encode_refuses(r: Raster, options: EncodeOptions) -> bool {
    match options {
        EncodeOptions::Webp(_) | EncodeOptions::WebpLossless => !webp_supports(r.layout),
        EncodeOptions::Avif(_) => r.layout is None,
        _ => encoded_file(r, options) is None,
    }
}

/// `e` is the error of an encode that fails: `EncodeFailed` with the format
/// for an encoder that is called here, `UnsupportedColorType` for WebP and
/// AVIF.
pub open spec fn encode_fails(r: Raster, options: EncodeOptions, e: Error) -> bool {
    &&& encode_refuses(r, options)
    &&& if encodes_here(options) {
        e matches Error::EncodeFailed { target, .. } && target == target_of(options)
    } else {
        e == Error::UnsupportedColorType
    }
}

/// The format that the options ask for.
pub fn target_format(options: &EncodeOptions) -> (out: TargetFormat)
    ensures
        out == target_of(*options),
{
    match options {
        EncodeOptions::Png(_) => TargetFormat::Png,
        EncodeOptions::Jpeg(_) => TargetFormat::Jpeg,
        EncodeOptions::Webp(_) => TargetFormat::Webp,
        EncodeOptions::WebpLossless => TargetFormat::WebpLossless,
        EncodeOptions::Avif(_) => TargetFormat::Avif,
        EncodeOptions::Bmp => TargetFormat::Bmp,
        EncodeOptions::Ico => TargetFormat::Ico,
        EncodeOptions::Tiff => TargetFormat::Tiff,
        EncodeOptions::Pnm => TargetFormat::Pnm,
        EncodeOptions::Tga => TargetFormat::Tga,
        EncodeOptions::Farbfeld => TargetFormat::Farbfeld,
        EncodeOptions::RawPixels => TargetFormat::RawPixels,
    }
}

/// The bytes that one pixel takes in a layout.
pub fn pixel_size(layout: JsColorType) -> (out: u8)
    ensures
        out == bytes_per_pixel(layout),
{
    match layout {
        JsColorType::L8 => 1,
        JsColorType::La8 => 2,
        JsColorType::Rgb8 => 3,
        JsColorType::Rgba8 => 4,
        JsColorType::L16 => 2,
        JsColorType::La16 => 4,
        JsColorType::Rgb16 => 6,
        JsColorType::Rgba16 => 8,
        JsColorType::Rgb32F => 12,
        JsColorType::Rgba32F => 16,
    }
}

/// Whether the pixel container of an image holds the pixels and nothing more.
pub fn has_exact_container(img: &DynamicImage) -> (out: bool)
    ensures
        out == container_is_exact(raster_of(*img)),
{
    let layout = match image_layout(img) {
        Some(layout) => layout,
        None => {
            return false;
        },
    };
    let width = image_width(img);
    let height = image_height(img);
    proof {
        lemma_side_product(width as int, height as int);
    }
    let pixels: u128 = (width as u128) * (height as u128);
    let size: u128 = pixel_size(layout) as u128;
    assert(pixels * size <= 0xffff_fffe_0000_0001 * 16) by (nonlinear_arith)
        requires
            0 <= pixels <= 0xffff_fffe_0000_0001,
            0 <= size <= 16,
    ;
    image_byte_len(img) as u128 == pixels * size
}

/// The failure for a pixel container that an encoder would not take, with
/// the words that say so.
fn inexact_container() -> (out: Result<Vec<u8>, String>)
    ensures
        out matches Err(words) && words@ == "the pixel buffer does not match the size of the image"@,
{
    Err("the pixel buffer does not match the size of the image".to_string())
}

/// Encodes an image to the format that the options ask for.
///
/// The raster formats and the raw pixels are encoded here and come back as a
/// buffer; the encoder's failure is an `EncodeFailed` with the format. For
/// WebP and AVIF the encode is prepared and comes back as a job; an image in
/// a layout that the format does not take is an `UnsupportedColorType`.
pub fn encode(img: &DynamicImage, options: &EncodeOptions) -> (out: Result<EncodeOutput, Error>)
    ensures
        out is Err <==> encode_refuses(raster_of(*img), *options),
        out matches Err(e) ==> encode_fails(raster_of(*img), *options, e),
        encodes_here(*options) ==> match encoded_file(raster_of(*img), *options) {
            Some(file) => out matches Ok(EncodeOutput::Buffer(bytes)) && bytes@ == file,
            None => out matches Err(Error::EncodeFailed { target, .. }) && target == target_of(*options),
        },
        !encodes_here(*options) ==> match out {
            Ok(EncodeOutput::Webp(job)) => {
                &&& *options matches EncodeOptions::Webp(quality) ==> encode_webp_inner.ensures(
                    (img, quality),
                    Ok(job),
                )
                &&& *options is WebpLossless ==> lossless_encode_webp_inner.ensures((img,), Ok(job))
                &&& !(*options is Avif)
            },
            Ok(EncodeOutput::Avif(job)) => *options matches EncodeOptions::Avif(config) && encode_avif_inner.ensures(
                (config, img),
                Ok(job),
            ),
            Ok(EncodeOutput::Buffer(_)) => false,
            Err(e) => e == Error::UnsupportedColorType && if *options is Avif {
                pixel_layout(*img) is None
            } else {
                !webp_supports(pixel_layout(*img))
            },
        },
{
    let target = target_format(options);
    match options {
        EncodeOptions::Webp(quality_factor) => Ok(EncodeOutput::Webp(encode_webp_inner(img, *quality_factor)?)),
        EncodeOptions::WebpLossless => Ok(EncodeOutput::Webp(lossless_encode_webp_inner(img)?)),
        EncodeOptions::Avif(config) => Ok(EncodeOutput::Avif(encode_avif_inner(*config, img)?)),
        EncodeOptions::Png(o) => {
            let compression = match o.compression_type {
                Some(c) => c,
                None => CompressionType::Default,
            };
            let filter = match o.filter_type {
                Some(f) => f,
                None => FilterType::NoFilter,
            };
            let outcome = if has_exact_container(img) {
                encode_png(img, compression, filter)
            } else {
                inexact_container()
            };
            Ok(EncodeOutput::Buffer(encode_outcome(target, outcome)?))
        },
        EncodeOptions::Jpeg(quality) => {
            let outcome = encode_jpeg(img, (*quality % 256) as u8);
            Ok(EncodeOutput::Buffer(encode_outcome(target, outcome)?))
        },
        EncodeOptions::RawPixels => Ok(EncodeOutput::Buffer(image_bytes(img))),
        _ => {
            let outcome = if has_exact_container(img) {
                encode_container(img, target)
            } else {
                inexact_container()
            };
            Ok(EncodeOutput::Buffer(encode_outcome(target, outcome)?))
        },
    }
}

} // verus!
