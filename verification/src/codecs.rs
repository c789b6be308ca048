//! The encoders of the `image` crate.
use crate::error::Error;
use crate::geometry::container_is_exact;
use crate::error::TargetFormat;
use crate::png::CompressionType;
use crate::png::FilterType;
use crate::raster::Raster;
use crate::raster::pixel_bytes;
use crate::raster::raster_of;
use image::DynamicImage;
use image::ImageEncoder;
use image::ImageFormat;
use image::codecs::png::CompressionType as PngCompression;
use image::codecs::png::FilterType as PngFilter;
use image::codecs::png::PngEncoder;
use std::io::Cursor;
use vstd::prelude::*;

verus! {

/// The container formats that are written by the general image writer.
pub open spec fn is_container_format(format: TargetFormat) -> bool {
    match format {
        TargetFormat::Bmp | TargetFormat::Ico | TargetFormat::Tiff | TargetFormat::Pnm | TargetFormat::Tga
        | TargetFormat::Farbfeld => true,
        _ => false,
    }
}

/// The file that `PngEncoder::write_image` writes, `None` where it fails.
pub uninterp spec fn png_file(src: Raster, compression: CompressionType, filter: FilterType) -> Option<Seq<u8>>;

/// The file that `JpegEncoder::encode_image` writes, `None` where it fails.
pub uninterp spec fn jpeg_file(src: Raster, quality: u8) -> Option<Seq<u8>>;

/// The file that `DynamicImage::write_to` writes, `None` where it fails.
pub uninterp spec fn container_file(src: Raster, format: TargetFormat) -> Option<Seq<u8>>;

/// `DynamicImage::as_bytes`: the length of the pixel container.
#[verifier::external_body]
pub(crate) fn image_byte_len(img: &DynamicImage) -> (len: usize)
    ensures
        len == pixel_bytes(*img).len(),
{
    img.as_bytes().len()
}

/// `PngEncoder::new_with_quality` and `write_image`: the image as a PNG file,
/// or the encoder's message. The encoder stops the program on a container
/// that is not exactly as long as the pixels, so such an image is left out.
#[verifier::external_body]
pub(crate) fn encode_png(img: &DynamicImage, compression: CompressionType, filter: FilterType) -> (out: Result<
    Vec<u8>,
    String,
>)
    requires
        container_is_exact(raster_of(*img)),
    ensures
        out is Ok <==> png_file(raster_of(*img), compression, filter) is Some,
        out matches Ok(file) ==> Some(file@) == png_file(raster_of(*img), compression, filter),
{
    let mut output = Cursor::new(Vec::new());
    let level = match compression {
        CompressionType::Default => PngCompression::Default,
        CompressionType::Fast => PngCompression::Fast,
        CompressionType::Best => PngCompression::Best,
    };
    let rows = match filter {
        FilterType::NoFilter => PngFilter::NoFilter, FilterType::Sub => PngFilter::Sub,
        FilterType::Up => PngFilter::Up, FilterType::Avg => PngFilter::Avg,
        FilterType::Paeth => PngFilter::Paeth, FilterType::Adaptive => PngFilter::Adaptive,
    };
    let encoder = PngEncoder::new_with_quality(&mut output, level, rows);
    encoder.write_image(img.as_bytes(), img.width(), img.height(), img.color().into()).map_err(|e| e.to_string())?;
    Ok(output.into_inner())
}

/// `JpegEncoder::new_with_quality` and `encode_image`: the image as a JPEG
/// file, or the encoder's message. The encoder holds the quality to the range
/// from 1 to 100.
#[verifier::external_body]
pub(crate) fn encode_jpeg(img: &DynamicImage, quality: u8) -> (out: Result<Vec<u8>, String>)
    ensures
        out is Ok <==> jpeg_file(raster_of(*img), quality) is Some,
        out matches Ok(file) ==> Some(file@) == jpeg_file(raster_of(*img), quality),
{
    let mut output = Cursor::new(Vec::new());
    image::codecs::jpeg::JpegEncoder::new_with_quality(&mut output, quality).encode_image(img).map_err(
        |e| e.to_string(),
    )?;
    Ok(output.into_inner())
}

/// `DynamicImage::write_to`: the image as a file of one of the container
/// formats, or the writer's message. The writers stop the program on a
/// container that is not exactly as long as the pixels, so such an image is
/// left out.
#[verifier::external_body]
pub(crate) fn encode_container(img: &DynamicImage, format: TargetFormat) -> (out: Result<Vec<u8>, String>)
    requires
        is_container_format(format),
        container_is_exact(raster_of(*img)),
    ensures
        out is Ok <==> container_file(raster_of(*img), format) is Some,
        out matches Ok(file) ==> Some(file@) == container_file(raster_of(*img), format),
{
    let mut output = Cursor::new(Vec::new());
    img.write_to(&mut output, match format {
        TargetFormat::Bmp => ImageFormat::Bmp,
        TargetFormat::Ico => ImageFormat::Ico,
        TargetFormat::Tiff => ImageFormat::Tiff,
        TargetFormat::Pnm => ImageFormat::Pnm,
        TargetFormat::Tga => ImageFormat::Tga,
        _ => ImageFormat::Farbfeld,
    }).map_err(|e| e.to_string())?;
    Ok(output.into_inner())
}

/// What came of handing an image to the encoder of `target`: the file, or
/// the failure with the encoder's words.
pub fn encode_outcome(target: TargetFormat, outcome: Result<Vec<u8>, String>) -> (out: Result<Vec<u8>, Error>)
    ensures
        out == match outcome {
            Ok(file) => Ok::<Vec<u8>, Error>(file),
            Err(detail) => Err(Error::EncodeFailed { target, detail }),
        },
{
    match outcome {
        Ok(file) => Ok(file),
        Err(detail) => Err(Error::EncodeFailed { target, detail }),
    }
}

} // verus!
