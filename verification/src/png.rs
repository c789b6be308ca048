//! PNG: the settings of the encoder, lossless optimization with `oxipng`,
//! and quantization to a palette with `imagequant` and `lodepng`.
use crate::error::Error;
use crate::error::SourceFormat;
use crate::error::TargetFormat;
use crate::utils::copy_bytes;
use crate::utils::lemma_side_product;
use oxipng::FilterStrategy;
use oxipng::IndexSet;
use std::io::Cursor;
use vstd::prelude::*;

verus! {

/// Default compression level, fast or best: the effort of the PNG encoder.
#[derive(Clone, Copy, Debug, PartialEq, Eq, Structural)]
pub enum CompressionType {
    /// Default compression level
    Default,
    /// Fast, minimal compression
    Fast,
    /// High compression level
    Best,
}

impl Default for CompressionType {
    fn default() -> (out: Self)
        ensures
            out == CompressionType::Default,
    {
        CompressionType::Default
    }
}

/// The row filters of the PNG encoder.
#[derive(Clone, Copy, Debug, PartialEq, Eq, Structural)]
pub enum FilterType {
    /// No processing done, best used for low bit depth greyscale or data with a
    /// low color count
    NoFilter,
    /// Filters based on previous pixel in the same scanline
    Sub,
    /// Filters based on the scanline above
    Up,
    /// Filters based on the average of left and right neighbor pixels
    Avg,
    /// Algorithm that takes into account the left, upper left, and above pixels
    Paeth,
    /// Uses a heuristic to select one of the preceding filters for each
    /// scanline rather than one filter for the entire image
    Adaptive,
}

impl Default for FilterType {
    fn default() -> (out: Self)
        ensures
            out == FilterType::NoFilter,
    {
        FilterType::NoFilter
    }
}

/// The settings of a PNG encode.
#[derive(Clone, Copy, Debug, PartialEq, Eq, Structural)]
pub struct PngEncodeOptions {
    /// Default is `CompressionType::Default`
    pub compression_type: Option<CompressionType>,
    /// Default is `FilterType::NoFilter`
    pub filter_type: Option<FilterType>,
}

/// The settings in which nothing is fixed.
pub open spec fn no_png_settings() -> PngEncodeOptions {
    PngEncodeOptions { compression_type: None, filter_type: None }
}

impl Default for PngEncodeOptions {
    fn default() -> (out: Self)
        ensures
            out == no_png_settings(),
    {
        PngEncodeOptions { compression_type: None, filter_type: None }
    }
}

/// The compression that is asked for, the default level where none is.
pub open spec fn compression_or_default(compression: Option<CompressionType>) -> CompressionType {
    match compression {
        Some(c) => c,
        None => CompressionType::Default,
    }
}

/// The row filter that is asked for, no filter where none is.
pub open spec fn row_filter_or_default(filter: Option<FilterType>) -> FilterType {
    match filter {
        Some(f) => f,
        None => FilterType::NoFilter,
    }
}

#[verifier::external_type_specification]
#[verifier::external_body]
pub struct ExFilterStrategy(oxipng::FilterStrategy);

#[verifier::external_type_specification]
#[verifier::external_body]
#[verifier::reject_recursive_types(T)]
#[verifier::reject_recursive_types(S)]
pub struct ExIndexSet<T, S>(oxipng::IndexSet<T, S>);

#[verifier::external_type_specification]
#[verifier::external_body]
pub struct ExAttributes(imagequant::Attributes);

/// The ways in which the optimizer chooses the filter of a row.
#[derive(Clone, Copy, Debug, PartialEq, Eq, Structural)]
pub enum PngRowFilter {
    // Standard filter types
    NoFilter,
    Sub,
    Up,
    Average,
    Paeth,
    // Heuristic strategies
    MinSum,
    Entropy,
    Bigrams,
    BigEnt,
    Brute,
}

/// The settings of a lossless optimization, each with a default.
pub struct PNGLosslessOptions {
    /// Attempt to fix errors when decoding the input file rather than returning an Err.
    /// Default: `false`
    pub fix_errors: Option<bool>,
    /// Write to output even if there was no improvement in compression.
    /// Default: `false`
    pub force: Option<bool>,
    /// Which filters to try on the file
    pub filter: Option<Vec<PngRowFilter>>,
    /// Whether to attempt bit depth reduction
    /// Default: `true`
    pub bit_depth_reduction: Option<bool>,
    /// Whether to attempt color type reduction
    /// Default: `true`
    pub color_type_reduction: Option<bool>,
    /// Whether to attempt palette reduction
    /// Default: `true`
    pub palette_reduction: Option<bool>,
    /// Whether to attempt grayscale reduction
    /// Default: `true`
    pub grayscale_reduction: Option<bool>,
    /// Whether to perform IDAT recoding
    /// If any type of reduction is performed, IDAT recoding will be performed regardless of this setting
    /// Default: `true`
    pub idat_recoding: Option<bool>,
    /// Whether to remove ***All non-critical headers*** on PNG
    pub strip: Option<bool>,
}

impl Default for PNGLosslessOptions {
    fn default() -> (out: Self)
        ensures
            out.fix_errors is None,
            out.force is None,
            out.filter is None,
            out.bit_depth_reduction is None,
            out.color_type_reduction is None,
            out.palette_reduction is None,
            out.grayscale_reduction is None,
            out.idat_recoding is None,
            out.strip is None,
    {
        PNGLosslessOptions {
            fix_errors: None,
            force: None,
            filter: None,
            bit_depth_reduction: None,
            color_type_reduction: None,
            palette_reduction: None,
            grayscale_reduction: None,
            idat_recoding: None,
            strip: None,
        }
    }
}

/// The switches of a lossless optimization.
#[derive(Clone, Copy, Debug, PartialEq, Eq, Structural)]
pub struct LosslessFlags {
    pub fix_errors: bool,
    pub force: bool,
    pub bit_depth_reduction: bool,
    pub color_type_reduction: bool,
    pub palette_reduction: bool,
    pub grayscale_reduction: bool,
    pub idat_recoding: bool,
    /// Whether all headers that are not critical are removed, or none.
    pub strip_all: bool,
}

/// The settings of a lossless optimization with every default filled in.
pub struct LosslessSettings {
    pub flags: LosslessFlags,
    /// The row filters to try, in this order.
    pub filter: Vec<PngRowFilter>,
}

/// The flag that is given, or the default.
pub open spec fn flag_or(flag: Option<bool>, default: bool) -> bool {
    match flag {
        Some(b) => b,
        None => default,
    }
}

/// The five standard filters, which are tried where none are named.
pub open spec fn standard_filters() -> Seq<PngRowFilter> {
    seq![
        PngRowFilter::NoFilter,
        PngRowFilter::Sub,
        PngRowFilter::Up,
        PngRowFilter::Average,
        PngRowFilter::Paeth,
    ]
}

/// The filters that are named, or the five standard ones.
pub open spec fn filters_or_standard(filter: Option<Vec<PngRowFilter>>) -> Seq<PngRowFilter> {
    match filter {
        Some(v) => v@,
        None => standard_filters(),
    }
}

/// The switches with every default filled in: nothing is fixed and nothing
/// is forced, every reduction and the recoding are attempted, and all headers
/// that are not critical are removed.
pub open spec fn resolved_flags(opt: PNGLosslessOptions) -> LosslessFlags {
    LosslessFlags {
        fix_errors: flag_or(opt.fix_errors, false),
        force: flag_or(opt.force, false),
        bit_depth_reduction: flag_or(opt.bit_depth_reduction, true),
        color_type_reduction: flag_or(opt.color_type_reduction, true),
        palette_reduction: flag_or(opt.palette_reduction, true),
        grayscale_reduction: flag_or(opt.grayscale_reduction, true),
        idat_recoding: flag_or(opt.idat_recoding, true),
        strip_all: flag_or(opt.strip, true),
    }
}

/// `settings` has every default of `opt` filled in.
pub open spec fn resolves(opt: PNGLosslessOptions, settings: LosslessSettings) -> bool {
    &&& settings.flags == resolved_flags(opt)
    &&& settings.filter@ == filters_or_standard(opt.filter)
}

/// The flag that is given, or the default.
fn flag(given: Option<bool>, default: bool) -> (out: bool)
    ensures
        out == flag_or(given, default),
{
    match given {
        Some(b) => b,
        None => default,
    }
}

/// The settings of the optimizer with every default filled in.
pub fn to_oxipng_options(opt: &PNGLosslessOptions) -> (out: LosslessSettings)
    ensures
        resolves(*opt, out),
{
    let filter = match &opt.filter {
        Some(named) => {
            let mut copy: Vec<PngRowFilter> = Vec::new();
            let mut i: usize = 0;
            while i < named.len()
                invariant
                    i <= named.len(),
                    copy@ == named@.take(i as int),
                decreases named.len() - i,
            {
                copy.push(named[i]);
                assert(named@.take(i + 1) == named@.take(i as int).push(named@[i as int]));
                i += 1;
            }
            assert(named@.take(named.len() as int) == named@);
            copy
        },
        None => {
            let mut standard: Vec<PngRowFilter> = Vec::new();
            standard.push(PngRowFilter::NoFilter);
            standard.push(PngRowFilter::Sub);
            standard.push(PngRowFilter::Up);
            standard.push(PngRowFilter::Average);
            standard.push(PngRowFilter::Paeth);
            assert(standard@ == standard_filters());
            standard
        },
    };
    LosslessSettings {
        flags: LosslessFlags {
            fix_errors: flag(opt.fix_errors, false),
            force: flag(opt.force, false),
            bit_depth_reduction: flag(opt.bit_depth_reduction, true),
            color_type_reduction: flag(opt.color_type_reduction, true),
            palette_reduction: flag(opt.palette_reduction, true),
            grayscale_reduction: flag(opt.grayscale_reduction, true),
            idat_recoding: flag(opt.idat_recoding, true),
            strip_all: flag(opt.strip, true),
        },
        filter,
    }
}

/// The row filters whose strategies a set holds, in the order in which they
/// went in.
pub uninterp spec fn strategies_of(set: IndexSet<FilterStrategy>) -> Seq<PngRowFilter>;

/// The file that `oxipng::optimize_from_memory` makes of a PNG file with the
/// switches and with the strategies of the row filters, tried in their order;
/// `None` where it reports an error.
pub uninterp spec fn optimized_png(input: Seq<u8>, flags: LosslessFlags, filters: Seq<PngRowFilter>) -> Option<
    Seq<u8>,
>;

/// The filters with every repetition of an earlier one left out.
pub open spec fn without_repeats(filters: Seq<PngRowFilter>) -> Seq<PngRowFilter>
    decreases filters.len(),
{
    if filters.len() == 0 {
        filters
    } else if without_repeats(filters.drop_last()).contains(filters.last()) {
        without_repeats(filters.drop_last())
    } else {
        without_repeats(filters.drop_last()).push(filters.last())
    }
}

/// `IndexSet::new`: a set that holds nothing.
#[verifier::external_body]
pub(crate) fn no_strategies() -> (out: IndexSet<FilterStrategy>)
    ensures
        strategies_of(out) == Seq::<PngRowFilter>::empty(),
{
    IndexSet::new()
}

/// The lines that the exhaustive search of the row filters looks at.
pub const BRUTE_LINES: usize = 3;

/// The level at which the exhaustive search of the row filters compresses.
pub const BRUTE_LEVEL: u8 = 1;

/// `IndexSet::insert`: the strategy of the row filter goes in behind the
/// others, unless the set holds it already; then nothing changes. `lines`
/// and `level` are for the exhaustive search; a set is told by its row
/// filters alone, so the two are always the same.
#[verifier::external_body]
pub(crate) fn add_strategy(set: &mut IndexSet<FilterStrategy>, filter: PngRowFilter, lines: usize, level: u8)
    requires
        lines == BRUTE_LINES,
        level == BRUTE_LEVEL,
    ensures
        strategies_of(*final(set)) == if strategies_of(*old(set)).contains(filter) {
            strategies_of(*old(set))
        } else {
            strategies_of(*old(set)).push(filter)
        },
{
    set.insert(match filter {
        PngRowFilter::NoFilter => FilterStrategy::NONE,
        PngRowFilter::Sub => FilterStrategy::SUB,
        PngRowFilter::Up => FilterStrategy::UP,
        PngRowFilter::Average => FilterStrategy::AVERAGE,
        PngRowFilter::Paeth => FilterStrategy::PAETH,
        PngRowFilter::MinSum => FilterStrategy::MinSum,
        PngRowFilter::Entropy => FilterStrategy::Entropy,
        PngRowFilter::Bigrams => FilterStrategy::Bigrams,
        PngRowFilter::BigEnt => FilterStrategy::BigEnt,
        PngRowFilter::Brute => FilterStrategy::Brute { num_lines: lines, level },
    });
}

/// `oxipng::optimize_from_memory`: the PNG file in `input` compressed again
/// without loss, with the switches and with the strategies of the set tried
/// in their order, or the optimizer's message. Where nothing is gained and
/// nothing is forced the result is the input.
#[verifier::external_body]
pub(crate) fn optimize_from_memory(input: &[u8], flags: LosslessFlags, strategies: IndexSet<FilterStrategy>) -> (out:
    Result<Vec<u8>, String>)
    ensures
        out is Ok <==> optimized_png(input@, flags, strategies_of(strategies)) is Some,
        out matches Ok(file) ==> Some(file@) == optimized_png(input@, flags, strategies_of(strategies)),
{
    let options = oxipng::Options {
        fix_errors: flags.fix_errors,
        force: flags.force,
        filters: strategies,
        bit_depth_reduction: flags.bit_depth_reduction,
        color_type_reduction: flags.color_type_reduction,
        palette_reduction: flags.palette_reduction,
        grayscale_reduction: flags.grayscale_reduction,
        idat_recoding: flags.idat_recoding,
        strip: if flags.strip_all { oxipng::StripChunks::All } else { oxipng::StripChunks::None },
        ..Default::default()
    };
    oxipng::optimize_from_memory(input, &options).map_err(|e| e.to_string())
}

/// `out` is what optimizing the file `input` gives: the file that the
/// optimizer makes with the switches and with the filters, each tried once,
/// or `DecodeFailed` where it reports an error.
pub open spec fn optimizes(input: Seq<u8>, flags: LosslessFlags, filters: Seq<PngRowFilter>, out: Result<
    Vec<u8>,
    Error,
>) -> bool {
    match optimized_png(input, flags, without_repeats(filters)) {
        Some(file) => out matches Ok(bytes) && bytes@ == file,
        None => out matches Err(Error::DecodeFailed { source, .. }) && source == SourceFormat::Png,
    }
}

/// Optimizes a PNG file with given settings.
fn optimize(input: &[u8], settings: &LosslessSettings) -> (out: Result<Vec<u8>, Error>)
    ensures
        optimizes(input@, settings.flags, settings.filter@, out),
{
    let mut strategies = no_strategies();
    let mut i: usize = 0;
    assert(settings.filter@.take(0) == Seq::<PngRowFilter>::empty());
    while i < settings.filter.len()
        invariant
            i <= settings.filter.len(),
            strategies_of(strategies) == without_repeats(settings.filter@.take(i as int)),
        decreases settings.filter.len() - i,
    {
        add_strategy(&mut strategies, settings.filter[i], BRUTE_LINES, BRUTE_LEVEL);
        proof {
            let next = settings.filter@.take(i + 1);
            assert(next.drop_last() == settings.filter@.take(i as int));
            assert(next.last() == settings.filter@[i as int]);
        }
        i += 1;
    }
    assert(settings.filter@.take(settings.filter.len() as int) == settings.filter@);
    match optimize_from_memory(input, settings.flags, strategies) {
        Ok(file) => Ok(file),
        Err(detail) => Err(Error::DecodeFailed { source: SourceFormat::Png, detail }),
    }
}

/// The switches of the options that are given, or the defaults.
pub open spec fn flags_or_default(options: Option<PNGLosslessOptions>) -> LosslessFlags {
    match options {
        Some(o) => resolved_flags(o),
        None => LosslessFlags {
            fix_errors: false,
            force: false,
            bit_depth_reduction: true,
            color_type_reduction: true,
            palette_reduction: true,
            grayscale_reduction: true,
            idat_recoding: true,
            strip_all: true,
        },
    }
}

/// The filters of the options that are given, or the five standard ones.
pub open spec fn filters_or_default(options: Option<PNGLosslessOptions>) -> Seq<PngRowFilter> {
    match options {
        Some(o) => filters_or_standard(o.filter),
        None => standard_filters(),
    }
}

/// Compresses a PNG file again without loss.
///
/// Fails with `DecodeFailed` where the optimizer rejects the input.
pub fn lossless_compress_png_sync(input: &[u8], options: Option<PNGLosslessOptions>) -> (out: Result<Vec<u8>, Error>)
    ensures
        optimizes(input@, flags_or_default(options), filters_or_default(options), out),
{
    let options = match options {
        Some(o) => o,
        None => PNGLosslessOptions::default(),
    };
    let settings = to_oxipng_options(&options);
    optimize(input, &settings)
}

/// A lossless optimization of a PNG file.
pub struct LosslessPngTask {
    pub input: Vec<u8>,
    pub options: PNGLosslessOptions,
}

impl LosslessPngTask {
    /// Compresses the file again without loss.
    ///
    /// Fails with `DecodeFailed` where the optimizer rejects the input.
    pub fn compute(&mut self) -> (out: Result<Vec<u8>, Error>)
        ensures
            *final(self) == *old(self),
            optimizes(
                old(self).input@,
                resolved_flags(old(self).options),
                filters_or_standard(old(self).options.filter),
                out,
            ),
    {
        let settings = to_oxipng_options(&self.options);
        optimize(self.input.as_slice(), &settings)
    }

    /// The optimized file, as it is.
    pub fn resolve(&mut self, output: Vec<u8>) -> (out: Result<Vec<u8>, Error>)
        ensures
            out == Ok::<Vec<u8>, Error>(output),
    {
        Ok(output)
    }
}

/// A task that compresses a PNG file again without loss.
pub fn lossless_compress_png(input: Vec<u8>, options: Option<PNGLosslessOptions>) -> (out: LosslessPngTask)
    ensures
        out.input == input,
        options matches Some(o) ==> out.options == o,
{
    LosslessPngTask {
        input,
        options: match options {
            Some(o) => o,
            None => PNGLosslessOptions::default(),
        },
    }
}

/// The settings of a quantization, each with a default.
#[derive(Clone, Copy, Debug, PartialEq, Eq, Structural)]
pub struct PngQuantOptions {
    /// default is 70
    pub min_quality: Option<u32>,
    /// default is 99
    pub max_quality: Option<u32>,
    /// 1- 10
    /// Faster speeds generate images of lower quality, but may be useful for real-time generation of images.
    /// default: 5
    pub speed: Option<u32>,
    /// Number of least significant bits to ignore.
    /// Useful for generating palettes for VGA, 15-bit textures, or other retro platforms.
    pub posterization: Option<u32>,
}

/// The settings in which nothing is fixed.
pub open spec fn no_quant_settings() -> PngQuantOptions {
    PngQuantOptions { min_quality: None, max_quality: None, speed: None, posterization: None }
}

impl Default for PngQuantOptions {
    fn default() -> (out: Self)
        ensures
            out == no_quant_settings(),
    {
        PngQuantOptions { min_quality: None, max_quality: None, speed: None, posterization: None }
    }
}

/// The settings of a quantization as the quantizer takes them.
#[derive(Clone, Copy, Debug, PartialEq, Eq, Structural)]
pub struct QuantSettings {
    pub speed: i32,
    pub min_quality: u8,
    pub max_quality: u8,
}

/// The low eight bits of the number, or the default where there is none.
pub open spec fn quality_or(value: Option<u32>, default: u8) -> u8 {
    match value {
        Some(v) => (v % 256) as u8,
        None => default,
    }
}

/// The speed as the signed number that the quantizer takes: the number
/// itself below two to the power 31, wrapped round above, and 5 where there
/// is none.
pub open spec fn speed_or_default(value: Option<u32>) -> i32 {
    match value {
        Some(v) => if v <= i32::MAX {
            v as i32
        } else {
            (v - 0x1_0000_0000) as i32
        },
        None => 5,
    }
}

/// The settings with every default filled in: speed 5, and a quality from 70
/// to 99.
pub open spec fn spec_quant_settings(options: PngQuantOptions) -> QuantSettings {
    QuantSettings {
        speed: speed_or_default(options.speed),
        min_quality: quality_or(options.min_quality, 70),
        max_quality: quality_or(options.max_quality, 99),
    }
}

/// The quantizer takes the settings: a speed from 1 to 10 and a quality
/// range within 0 to 100.
pub open spec fn quant_settings_valid(settings: QuantSettings) -> bool {
    &&& 1 <= settings.speed <= 10
    &&& settings.min_quality <= settings.max_quality <= 100
}

/// The settings with every default filled in.
pub fn quant_settings(options: &PngQuantOptions) -> (out: QuantSettings)
    ensures
        out == spec_quant_settings(*options),
{
    QuantSettings {
        speed: match options.speed {
            Some(v) => if v <= 0x7fff_ffff {
                v as i32
            } else {
                (v as i64 - 0x1_0000_0000) as i32
            },
            None => 5,
        },
        min_quality: match options.min_quality {
            Some(v) => (v % 256) as u8,
            None => 70,
        },
        max_quality: match options.max_quality {
            Some(v) => (v % 256) as u8,
            None => 99,
        },
    }
}

/// The first frame of a PNG file: its size, and the bytes that the decoder
/// wrote for it.
pub struct PngFrame {
    pub pixels: Vec<u8>,
    pub width: u32,
    pub height: u32,
}

/// The first frame that the `png` crate decodes from a file, as its bytes,
/// width and height; `None` where the decoder reports an error.
pub uninterp spec fn png_frame(bytes: Seq<u8>) -> Option<(Seq<u8>, u32, u32)>;

/// `png::Decoder::read_info` and `png::Reader::next_frame`: the first frame
/// of the PNG file, decoded into a buffer of the size that the reader asks
/// for, or the decoder's message.
#[verifier::external_body]
pub(crate) fn read_png_frame(input: &[u8]) -> (out: Result<PngFrame, String>)
    ensures
        out is Ok <==> png_frame(input@) is Some,
        out matches Ok(frame) ==> Some((frame.pixels@, frame.width, frame.height)) == png_frame(input@),
{
    let mut reader = ::png::Decoder::new(Cursor::new(input)).read_info().map_err(|e| e.to_string())?;
    let size = reader.output_buffer_size().ok_or_else(|| "the image is too large".to_string())?;
    let mut pixels = vec![0; size];
    let info = reader.next_frame(&mut pixels).map_err(|e| e.to_string())?;
    Ok(PngFrame { pixels, width: info.width, height: info.height })
}

/// A quantized image: the colors of its palette, four bytes for each in the
/// order red, green, blue, alpha, and for every pixel the place of its color
/// in the palette.
pub struct Quantized {
    pub palette: Vec<u8>,
    pub indices: Vec<u8>,
}

/// `imagequant::new`, `Attributes::set_speed` and `set_quality`: a quantizer
/// with the settings, or its message for settings that it does not take: a
/// speed outside 1 to 10, a quality above 100, or a least quality above the
/// quality aimed at.
#[verifier::external_body]
pub(crate) fn quantizer(settings: QuantSettings) -> (out: Result<imagequant::Attributes, String>)
    ensures
        out is Ok <==> quant_settings_valid(settings),
{
    let mut attr = imagequant::new();
    attr.set_speed(settings.speed).map_err(|e| e.to_string())?;
    attr.set_quality(settings.min_quality, settings.max_quality).map_err(|e| e.to_string())?;
    Ok(attr)
}

/// `Attributes::new_image` with the default gamma, `quantize` and
/// `QuantizationResult::remapped`, which dithers at its full level unless
/// told otherwise: the pixels, four bytes for each in the order red, green,
/// blue, alpha, reduced to a palette of at most 256 colors; or the
/// quantizer's message, as where the least quality cannot be reached. The
/// palette that a run finds is not stated here.
#[verifier::external_body]
pub(crate) fn quantize_rgba(attr: &imagequant::Attributes, pixels: &Vec<u8>, width: u32, height: u32) -> (out: Result<
    Quantized,
    String,
>)
    requires
        pixels@.len() >= width * height * 4,
    ensures
        out matches Ok(q) ==> q.indices@.len() == width * height && q.palette@.len() <= 1024 && q.palette@.len() % 4
            == 0,
{
    let rgba: Vec<imagequant::RGBA> = pixels.chunks_exact(4).map(|p| imagequant::RGBA::new(p[0], p[1], p[2], p[3])).collect();
    let mut img = attr.new_image(rgba, width as usize, height as usize, Default::default()).map_err(|e| e.to_string())?;
    let mut res = attr.quantize(&mut img).map_err(|e| e.to_string())?;
    let (palette, indices) = res.remapped(&mut img).map_err(|e| e.to_string())?;
    Ok(Quantized { palette: palette.iter().flat_map(|c| [c.r, c.g, c.b, c.a]).collect(), indices })
}

/// The PNG file with a palette that `lodepng::Encoder::encode` writes for
/// the colors of a palette, four bytes each, and the place of its color for
/// every pixel of a `width` by `height` image; `None` where it reports an
/// error.
pub uninterp spec fn indexed_png(palette: Seq<u8>, indices: Seq<u8>, width: u32, height: u32) -> Option<Seq<u8>>;

/// `lodepng::Encoder::set_palette` and `encode`: a PNG file with a palette,
/// made of the colors of the palette and of the place of its color for every
/// pixel, or the encoder's message.
#[verifier::external_body]
pub(crate) fn encode_indexed(quantized: &Quantized, width: u32, height: u32) -> (out: Result<Vec<u8>, String>)
    requires
        quantized.indices@.len() == width * height,
    ensures
        out is Ok <==> indexed_png(quantized.palette@, quantized.indices@, width, height) is Some,
        out matches Ok(file) ==> Some(file@) == indexed_png(quantized.palette@, quantized.indices@, width, height),
{
    let mut encoder = lodepng::Encoder::new();
    let colors: Vec<lodepng::RGBA> = quantized.palette.chunks_exact(4).map(|c| lodepng::RGBA::new(c[0], c[1], c[2], c[3])).collect();
    encoder.set_palette(&colors).map_err(|e| e.to_string())?;
    encoder.encode(&quantized.indices, width as usize, height as usize).map_err(|e| e.to_string())
}

/// What came of a step between the decoded frame and the file with a
/// palette: its value, or `EncodeFailed` with the words of the step.
pub fn quantize_outcome<T>(outcome: Result<T, String>) -> (out: Result<T, Error>)
    ensures
        out == match outcome {
            Ok(value) => Ok::<T, Error>(value),
            Err(detail) => Err(Error::EncodeFailed { target: TargetFormat::Png, detail }),
        },
{
    match outcome {
        Ok(value) => Ok(value),
        Err(detail) => Err(Error::EncodeFailed { target: TargetFormat::Png, detail }),
    }
}

/// The frame has fewer bytes than four for each pixel: it is not held as
/// 8-bit RGBA, and quantizing cannot improve on it.
pub open spec fn frame_too_small(len: int, width: int, height: int) -> bool {
    len < width * height * 4
}

/// `file` is a quantized `width` by `height` image: the file that the
/// palette encoder writes for some palette of at most 256 colors and the
/// place of its color for each of the pixels.
pub open spec fn is_quantized(width: u32, height: u32, file: Seq<u8>) -> bool {
    exists|palette: Seq<u8>, indices: Seq<u8>|
        {
            &&& palette.len() <= 1024
            &&& palette.len() % 4 == 0
            &&& indices.len() == width * height
            &&& #[trigger] indexed_png(palette, indices, width, height) == Some(file)
        }
}

/// Quantizes a decoded frame and writes it as a PNG file with a palette, or
/// hands the input back where the frame has too few bytes.
pub fn quantize_frame(input: &[u8], frame: PngFrame, settings: QuantSettings) -> (out: Result<Vec<u8>, Error>)
    ensures
        frame_too_small(frame.pixels@.len() as int, frame.width as int, frame.height as int) ==> (out matches Ok(file)
            && file@ == input@),
        !frame_too_small(frame.pixels@.len() as int, frame.width as int, frame.height as int) ==> {
            &&& !quant_settings_valid(settings) ==> out is Err
            &&& out matches Ok(file) ==> is_quantized(frame.width, frame.height, file@)
        },
        out matches Err(e) ==> e matches Error::EncodeFailed { target, .. } && target == TargetFormat::Png,
{
    proof {
        lemma_side_product(frame.width as int, frame.height as int);
    }
    let needed: u128 = (frame.width as u128) * (frame.height as u128) * 4;
    if (frame.pixels.len() as u128) < needed {
        return Ok(copy_bytes(input));
    }
    let attr = quantize_outcome(quantizer(settings))?;
    let quantized = quantize_outcome(quantize_rgba(&attr, &frame.pixels, frame.width, frame.height))?;
    quantize_outcome(encode_indexed(&quantized, frame.width, frame.height))
}

/// `out` is what quantizing the file `input` may give: a decode failure where
/// the file cannot be decoded; the file itself where its decoded frame has
/// fewer bytes than four for each pixel; else a quantized file, or an encode
/// failure, which is certain where the quantizer does not take the settings.
pub open spec fn quantizes(input: Seq<u8>, options: PngQuantOptions, out: Result<Vec<u8>, Error>) -> bool {
    match png_frame(input) {
        None => out matches Err(Error::DecodeFailed { source, .. }) && source == SourceFormat::Png,
        Some(frame) => if frame_too_small(frame.0.len() as int, frame.1 as int, frame.2 as int) {
            out matches Ok(file) && file@ == input
        } else {
            &&& !quant_settings_valid(spec_quant_settings(options)) ==> out is Err
            &&& out matches Ok(file) ==> is_quantized(frame.1, frame.2, file@)
            &&& out matches Err(e) ==> e matches Error::EncodeFailed { target, .. } && target == TargetFormat::Png
        },
    }
}

/// Reduces a PNG file to a palette of at most 256 colors.
///
/// The file comes back unchanged where its decoded frame has fewer bytes
/// than four for each pixel. Fails with `DecodeFailed` where the file cannot
/// be decoded, and with `EncodeFailed` where the quantizer does not take the
/// settings, cannot reach the quality, or the file cannot be written.
pub fn png_quantize_inner(input: &[u8], options: &PngQuantOptions) -> (out: Result<Vec<u8>, Error>)
    ensures
        quantizes(input@, *options, out),
{
    let frame = match read_png_frame(input) {
        Ok(frame) => frame,
        Err(detail) => {
            return Err(Error::DecodeFailed { source: SourceFormat::Png, detail });
        },
    };
    quantize_frame(input, frame, quant_settings(options))
}

/// Reduces a PNG file to a palette of at most 256 colors (see
/// `png_quantize_inner`).
pub fn png_quantize_sync(input: &[u8], options: Option<PngQuantOptions>) -> (out: Result<Vec<u8>, Error>)
    ensures
        quantizes(
            input@,
            match options {
                Some(o) => o,
                None => no_quant_settings(),
            },
            out,
        ),
{
    let options = match options {
        Some(o) => o,
        None => PngQuantOptions::default(),
    };
    png_quantize_inner(input, &options)
}

/// A quantization of a PNG file.
pub struct PngQuantTask {
    pub input: Vec<u8>,
    pub options: PngQuantOptions,
}

impl PngQuantTask {
    /// Reduces the file to a palette (see `png_quantize_inner`).
    pub fn compute(&mut self) -> (out: Result<Vec<u8>, Error>)
        ensures
            *final(self) == *old(self),
            quantizes(old(self).input@, old(self).options, out),
    {
        png_quantize_inner(self.input.as_slice(), &self.options)
    }

    /// The quantized file, as it is.
    pub fn resolve(&mut self, output: Vec<u8>) -> (out: Result<Vec<u8>, Error>)
        ensures
            out == Ok::<Vec<u8>, Error>(output),
    {
        Ok(output)
    }
}

/// A task that reduces a PNG file to a palette.
pub fn png_quantize(input: Vec<u8>, options: Option<PngQuantOptions>) -> (out: PngQuantTask)
    ensures
        out.input == input,
        out.options == match options {
            Some(o) => o,
            None => no_quant_settings(),
        },
{
    PngQuantTask {
        input,
        options: match options {
            Some(o) => o,
            None => PngQuantOptions::default(),
        },
    }
}

} // verus!
