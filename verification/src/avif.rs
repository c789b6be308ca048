//! What is handed to the AVIF encoder: its settings and the pixels in a
//! layout that it takes.
use crate::error::Error;
use crate::raster::Raster;
use crate::raster::image_bytes;
use crate::raster::image_height;
use crate::raster::image_layout;
use crate::raster::image_to_rgb8;
use crate::raster::image_width;
use crate::raster::pixel_height;
use crate::raster::pixel_layout;
use crate::raster::pixel_width;
use crate::raster::raster_of;
use crate::raster::rgb8_samples;
use crate::transformer::JsColorType;
use crate::utils::lemma_side_product;
use image::DynamicImage;
use vstd::prelude::*;

verus! {

/// The settings of an AVIF encode, each with a default.
#[derive(Clone, Copy, Debug, PartialEq, Eq, Structural)]
pub struct AvifConfig {
    /// 0-100 scale, 100 is lossless
    pub quality: Option<u32>,
    /// 0-100 scale
    pub alpha_quality: Option<u32>,
    /// rav1e preset 1 (slow) 10 (fast but crappy), default is 4
    pub speed: Option<u32>,
    /// How many threads should be used (0 = match core count)
    pub threads: Option<u32>,
    /// set to '4:2:0' to use chroma subsampling, default '4:4:4'
    pub chroma_subsampling: Option<ChromaSubsampling>,
}

/// The settings in which nothing is fixed.
pub open spec fn no_settings() -> AvifConfig {
    AvifConfig { quality: None, alpha_quality: None, speed: None, threads: None, chroma_subsampling: None }
}

/// The settings that are given, or those in which nothing is fixed.
pub open spec fn settings_or_none(config: Option<AvifConfig>) -> AvifConfig {
    match config {
        Some(c) => c,
        None => no_settings(),
    }
}

impl Default for AvifConfig {
    fn default() -> (out: Self)
        ensures
            out == no_settings(),
    {
        AvifConfig { quality: None, alpha_quality: None, speed: None, threads: None, chroma_subsampling: None }
    }
}

/// <https://en.wikipedia.org/wiki/Chroma_subsampling#Types_of_sampling_and_subsampling>
#[derive(Clone, Copy, Debug, PartialEq, Eq, Structural)]
pub enum ChromaSubsampling {
    /// Each of the three Y'CbCr components has the same sample rate, thus
    /// there is no chroma subsampling.
    Yuv444,
    /// The two chroma components are sampled at half the horizontal sample
    /// rate of luma: the horizontal chroma resolution is halved.
    Yuv422,
    /// The chroma components are sampled at half the rate of luma along both
    /// axes.
    Yuv420,
    /// Every pixel of luma and no chroma: a greyscale image.
    Yuv400,
}

/// The settings of an AVIF encode with every default filled in.
#[derive(Clone, Copy, Debug, PartialEq, Eq, Structural)]
pub struct Config {
    pub quality: u8,
    pub alpha_quality: u8,
    pub speed: u8,
    pub threads: usize,
    pub chroma_subsampling: ChromaSubsampling,
}

/// A setting as the byte that the encoder takes: the low eight bits of the
/// number, or of the default where there is none.
pub open spec fn byte_or(value: Option<u32>, default: u8) -> u8 {
    match value {
        Some(v) => (v % 256) as u8,
        None => default,
    }
}

/// The settings with every default filled in: quality 80, alpha quality 90,
/// speed 4, all of the `cores` where the thread count is absent or zero, and
/// no chroma subsampling.
pub open spec fn resolved_config(config: AvifConfig, cores: usize) -> Config {
    Config {
        quality: byte_or(config.quality, 80),
        alpha_quality: byte_or(config.alpha_quality, 90),
        speed: byte_or(config.speed, 4),
        threads: match config.threads {
            Some(n) => if n == 0 {
                cores
            } else {
                n as usize
            },
            None => cores,
        },
        chroma_subsampling: match config.chroma_subsampling {
            Some(c) => c,
            None => ChromaSubsampling::Yuv444,
        },
    }
}

/// The low eight bits of the number, or the default where there is none.
fn low_byte(value: Option<u32>, default: u8) -> (out: u8)
    ensures
        out == byte_or(value, default),
{
    match value {
        Some(v) => (v % 256) as u8,
        None => default,
    }
}

/// `num_cpus::get`: the number of processors that this process may use, at
/// least one.
#[verifier::external_body]
pub(crate) fn available_cores() -> (cores: usize)
    ensures
        cores >= 1,
{
    num_cpus::get()
}

impl Config {
    /// The settings with every default filled in, for a machine with
    /// `cores` processors.
    pub fn resolve(config: AvifConfig, cores: usize) -> (out: Config)
        ensures
            out == resolved_config(config, cores),
    {
        Config {
            quality: low_byte(config.quality, 80),
            alpha_quality: low_byte(config.alpha_quality, 90),
            speed: low_byte(config.speed, 4),
            threads: match config.threads {
                Some(n) => if n == 0 {
                    cores
                } else {
                    n as usize
                },
                None => cores,
            },
            chroma_subsampling: match config.chroma_subsampling {
                Some(c) => c,
                None => ChromaSubsampling::Yuv444,
            },
        }
    }

    /// The settings with every default filled in, for this machine.
    pub fn from(config: AvifConfig) -> (out: Config)
        ensures
            exists|cores: usize| cores >= 1 && out == #[trigger] resolved_config(config, cores),
    {
        let cores = available_cores();
        Config::resolve(config, cores)
    }
}

/// How the AVIF encoder is to read the samples.
#[derive(Clone, Copy, Debug, PartialEq, Eq, Structural)]
pub enum AvifSamples {
    /// One luminance sample for each pixel.
    Luma8,
    /// Color samples, three or four for each pixel as their number tells.
    Rgb,
}

/// An encode that is ready to be handed to the AVIF encoder.
pub struct AvifJob {
    pub config: Config,
    pub samples: AvifSamples,
    pub pixels: Vec<u8>,
    pub width: u32,
    pub height: u32,
}

/// How the samples are read: as luminance where there is exactly one for
/// each pixel, else as color.
pub open spec fn samples_kind(len: int, width: int, height: int) -> AvifSamples {
    if width * height == len {
        AvifSamples::Luma8
    } else {
        AvifSamples::Rgb
    }
}

/// How the AVIF encoder is to read `avif_image`, the samples of a `width` by
/// `height` image.
pub fn encode_image(avif_image: &[u8], width: u32, height: u32) -> (out: AvifSamples)
    ensures
        out == samples_kind(avif_image@.len() as int, width as int, height as int),
{
    proof {
        lemma_side_product(width as int, height as int);
    }
    if (width as u64) * (height as u64) == avif_image.len() as u64 {
        AvifSamples::Luma8
    } else {
        AvifSamples::Rgb
    }
}

/// The samples that are handed to the AVIF encoder: the container of an 8-bit
/// RGB or RGBA image as it is, and the pixels of any other image converted to
/// 8-bit RGB.
pub open spec fn avif_pixels(r: Raster) -> Seq<u8> {
    match r.layout {
        Some(JsColorType::Rgb8) | Some(JsColorType::Rgba8) => r.bytes,
        _ => rgb8_samples(r),
    }
}

/// Prepares the encode of an image as AVIF.
///
/// Fails with `UnsupportedColorType` for an image in a layout without a
/// name.
pub fn encode_avif_inner(config: Option<AvifConfig>, input_image: &DynamicImage) -> (out: Result<AvifJob, Error>)
    ensures
        out is Ok <==> pixel_layout(*input_image) is Some,
        out matches Err(e) ==> e == Error::UnsupportedColorType,
        out matches Ok(job) ==> {
            &&& exists|cores: usize|
                cores >= 1 && job.config == #[trigger] resolved_config(settings_or_none(config), cores)
            &&& job.width == pixel_width(*input_image)
            &&& job.height == pixel_height(*input_image)
            &&& job.pixels@ == avif_pixels(raster_of(*input_image))
            &&& job.pixels@.len() >= job.width * job.height * 3
            &&& job.samples == samples_kind(job.pixels@.len() as int, job.width as int, job.height as int)
        },
{
    let config = Config::from(
        match config {
            Some(c) => c,
            None => AvifConfig::default(),
        },
    );
    let width = image_width(input_image);
    let height = image_height(input_image);
    let pixels = match image_layout(input_image) {
        Some(JsColorType::Rgb8) => image_bytes(input_image),
        Some(JsColorType::Rgba8) => image_bytes(input_image),
        Some(_) => image_to_rgb8(input_image),
        None => {
            return Err(Error::UnsupportedColorType);
        },
    };
    let samples = encode_image(pixels.as_slice(), width, height);
    Ok(AvifJob { config, samples, pixels, width, height })
}

} // verus!
