//! Compressing JPEG files again: by a new encode at a lower quality, or
//! without loss by a transcoder that works on the coefficients.
//!
//! A quality of 100, which is also the default, always means the transcoder;
//! every other quality means a decode and a new encode.
use crate::codecs::encode_jpeg;
use crate::codecs::jpeg_file;
use crate::encode::jpeg_quality;
use crate::error::Error;
use crate::error::SourceFormat;
use crate::error::TargetFormat;
use crate::png::flag_or;
use crate::raster::raster_of;
use crate::utils::copy_bytes;
use image::DynamicImage;
use vstd::prelude::*;

verus! {

/// The settings of a JPEG compression, each with a default.
#[derive(Clone, Copy, Debug, PartialEq, Eq, Structural)]
pub struct JpegCompressOptions {
    /// Output quality, default is 100 (lossless)
    pub quality: Option<u32>,
    /// If true, it will use MozJPEG's scan optimization. Makes progressive image files smaller.
    /// Default is `true`
    pub optimize_scans: Option<bool>,
}

/// The settings in which nothing is fixed.
pub open spec fn no_jpeg_settings() -> JpegCompressOptions {
    JpegCompressOptions { quality: None, optimize_scans: None }
}

/// The settings that are given, or those in which nothing is fixed.
pub open spec fn jpeg_settings_or_none(options: Option<JpegCompressOptions>) -> JpegCompressOptions {
    match options {
        Some(o) => o,
        None => no_jpeg_settings(),
    }
}

impl Default for JpegCompressOptions {
    fn default() -> (out: Self)
        ensures
            out == no_jpeg_settings(),
    {
        JpegCompressOptions { quality: None, optimize_scans: None }
    }
}

/// A transcode without loss that is ready to be handed to the transcoder.
pub struct LosslessJpegJob {
    /// The JPEG file.
    pub input: Vec<u8>,
    /// Whether the scans of the progressive file are optimized.
    pub optimize_scans: bool,
}

/// What a compression gives: the file of a new encode, or what is to be
/// handed to the transcoder.
pub enum JpegOptimizeOutput {
    Lossless(LosslessJpegJob),
    Lossy(Vec<u8>),
}

/// The quality that is asked for, 100 where none is.
pub open spec fn quality_or_lossless(options: JpegCompressOptions) -> u32 {
    match options.quality {
        Some(q) => q,
        None => 100,
    }
}

/// `image::load_from_memory_with_format` for JPEG: the decoded image, or the
/// decoder's message. Nothing is promised of the result.
#[verifier::external_body]
pub(crate) fn decode_jpeg(input: &[u8]) -> (out: Result<DynamicImage, String>) {
    image::load_from_memory_with_format(input, image::ImageFormat::Jpeg).map_err(|e| e.to_string())
}

/// `out` is what a new encode at `quality` makes of what came of decoding
/// the input: a decode failure with the decoder's words, the file that the
/// encoder writes, or an encode failure.
pub open spec fn recompressed(decoded: Result<DynamicImage, String>, quality: u32, out: Result<Vec<u8>, Error>) -> bool {
    match decoded {
        Err(detail) => out == Err::<Vec<u8>, Error>(Error::DecodeFailed { source: SourceFormat::Jpeg, detail }),
        Ok(img) => match jpeg_file(raster_of(img), jpeg_quality(quality)) {
            Some(file) => out matches Ok(bytes) && bytes@ == file,
            None => out matches Err(Error::EncodeFailed { target, .. }) && target == TargetFormat::Jpeg,
        },
    }
}

/// Encodes what came of decoding the input anew, at the given quality.
pub fn recompress(decoded: Result<DynamicImage, String>, quality: u32) -> (out: Result<Vec<u8>, Error>)
    ensures
        recompressed(decoded, quality, out),
{
    match decoded {
        Err(detail) => Err(Error::DecodeFailed { source: SourceFormat::Jpeg, detail }),
        Ok(img) => match encode_jpeg(&img, (quality % 256) as u8) {
            Ok(file) => Ok(file),
            Err(detail) => Err(Error::EncodeFailed { target: TargetFormat::Jpeg, detail }),
        },
    }
}

/// `file` is a new encode at `quality` of some decoded image.
pub open spec fn is_recompression(quality: u32, file: Vec<u8>) -> bool {
    exists|decoded: Result<DynamicImage, String>| #[trigger]
        recompressed(decoded, quality, Ok::<Vec<u8>, Error>(file))
}

/// `out` is what compressing the file `input` may give: at quality 100 the
/// job for the transcoder, with the file and the scan optimization that is
/// asked for (by default it is on); at any other quality a new encode of the
/// decoded file, or the failure of the decode or of the encode.
pub open spec fn compresses(input: Seq<u8>, options: JpegCompressOptions, out: Result<JpegOptimizeOutput, Error>) -> bool {
    if quality_or_lossless(options) == 100 {
        out matches Ok(JpegOptimizeOutput::Lossless(job)) && job.input@ == input && job.optimize_scans == flag_or(
            options.optimize_scans,
            true,
        )
    } else {
        match out {
            Ok(JpegOptimizeOutput::Lossy(file)) => is_recompression(quality_or_lossless(options), file),
            Ok(JpegOptimizeOutput::Lossless(_)) => false,
            Err(e) => (e matches Error::DecodeFailed { source, .. } && source == SourceFormat::Jpeg) || (
            e matches Error::EncodeFailed { target, .. } && target == TargetFormat::Jpeg),
        }
    }
}

/// Compresses a JPEG file with given settings.
fn compress(input: &[u8], options: &JpegCompressOptions) -> (out: Result<JpegOptimizeOutput, Error>)
    ensures
        compresses(input@, *options, out),
{
    let quality = match options.quality {
        Some(q) => q,
        None => 100,
    };
    if quality != 100 {
        let decoded = decode_jpeg(input);
        let ghost outcome = decoded;
        let file = recompress(decoded, quality)?;
        assert(recompressed(outcome, quality, Ok::<Vec<u8>, Error>(file)));
        return Ok(JpegOptimizeOutput::Lossy(file));
    }
    Ok(
        JpegOptimizeOutput::Lossless(
            LosslessJpegJob {
                input: copy_bytes(input),
                optimize_scans: match options.optimize_scans {
                    Some(b) => b,
                    None => true,
                },
            },
        ),
    )
}

/// Compresses a JPEG file (see `compresses`).
pub fn compress_jpeg_sync(input: &[u8], options: Option<JpegCompressOptions>) -> (out: Result<
    JpegOptimizeOutput,
    Error,
>)
    ensures
        compresses(input@, jpeg_settings_or_none(options), out),
{
    let options = match options {
        Some(o) => o,
        None => JpegCompressOptions::default(),
    };
    compress(input, &options)
}

/// A compression of a JPEG file.
pub struct CompressJpegTask {
    pub options: JpegCompressOptions,
    pub input: Vec<u8>,
}

impl CompressJpegTask {
    /// Compresses the file (see `compresses`).
    pub fn compute(&mut self) -> (out: Result<JpegOptimizeOutput, Error>)
        ensures
            *final(self) == *old(self),
            compresses(old(self).input@, old(self).options, out),
    {
        compress(self.input.as_slice(), &self.options)
    }
}

/// A task that compresses a JPEG file.
pub fn compress_jpeg(input: Vec<u8>, options: Option<JpegCompressOptions>) -> (out: CompressJpegTask)
    ensures
        out.input == input,
        out.options == jpeg_settings_or_none(options),
{
    CompressJpegTask {
        input,
        options: match options {
            Some(o) => o,
            None => JpegCompressOptions::default(),
        },
    }
}

} // verus!
