//! The builder: an input, the transforms that are queued for it, and the
//! encodes of it.
use crate::avif::AvifConfig;
use crate::encode::EncodeOptions;
use crate::error::Error;
use crate::error::SourceFormat;
use crate::exif::ExifPair;
use crate::exif::distinct_names;
use crate::exif::pairs_map;
use crate::fast_resize::FastResizeOptions;
use crate::fast_resize::ResizeFit;
use crate::orientation::Orientation;
use crate::png::PngEncodeOptions;
use crate::png::no_png_settings;
use crate::queue::ImageTransformArgs;
use crate::queue::Overlay;
use crate::queue::OverlayView;
use crate::queue::QueueView;
use crate::queue::ResizeOptions;
use crate::queue::AvifPixels;
use crate::queue::empty_queue;
use crate::queue::overlays_view;
use crate::raster::decoded_image;
use crate::raster::is_exact_file;
use crate::raster::rgba8_from_vec;
use crate::session::DecodedView;
use crate::session::ImageMetaData;
use crate::session::ThreadsafeDynamicImage;
use crate::session::avif_layout;
use crate::session::avif_samples_fit;
use crate::session::is_first_decoded;
use crate::svg::css_color;
use crate::svg::is_raster_size;
use crate::svg::rasterize;
use crate::task::EncodeTask;
use crate::task::Progress;
use crate::task::Stage;
use crate::task::only_looked_up;
use crate::task::resumed;
use crate::task::seen_from;
use crate::task::started;
use image::DynamicImage;
use resvg::usvg::fontdb::Database;
use std::sync::Arc;
use vstd::prelude::*;

verus! {

/// How the channels of a pixel are laid out.
#[derive(Clone, Copy, Debug, PartialEq, Eq, Structural)]
pub enum JsColorType {
    /// Pixel is 8-bit luminance
    L8,
    /// Pixel is 8-bit luminance with an alpha channel
    La8,
    /// Pixel contains 8-bit R, G and B channels
    Rgb8,
    /// Pixel is 8-bit RGB with an alpha channel
    Rgba8,
    /// Pixel is 16-bit luminance
    L16,
    /// Pixel is 16-bit luminance with an alpha channel
    La16,
    /// Pixel is 16-bit RGB
    Rgb16,
    /// Pixel is 16-bit RGBA
    Rgba16,
    /// Pixel is 32-bit float RGB
    Rgb32F,
    /// Pixel is 32-bit float RGBA
    Rgba32F,
}

/// The sampling filters of the standard resize.
#[derive(Clone, Copy, Debug, PartialEq, Eq, Structural)]
pub enum ResizeFilterType {
    /// Nearest Neighbor
    Nearest,
    /// Linear Filter
    Triangle,
    /// Cubic Filter
    CatmullRom,
    /// Gaussian Filter
    Gaussian,
    /// Lanczos with window 3
    Lanczos3,
}

impl Default for ResizeFilterType {
    fn default() -> (out: Self)
        ensures
            out == ResizeFilterType::Lanczos3,
    {
        ResizeFilterType::Lanczos3
    }
}

/// What is known of an image.
pub struct Metadata {
    pub width: u32,
    pub height: u32,
    /// The EXIF tags with their readable values, left out where there are
    /// none.
    pub exif: Option<Vec<ExifPair>>,
    /// The EXIF orientation, left out where there is none.
    pub orientation: Option<u32>,
    /// The name of the container format, in lower case.
    pub format: String,
    pub color_type: JsColorType,
}

/// What a `MetadataTask` reads from a session.
pub struct MetadataOutput {
    pub width: u32,
    pub height: u32,
    pub exif: Vec<ExifPair>,
    pub orientation: Option<u16>,
    pub format: SourceFormat,
    pub color_type: Option<JsColorType>,
}

/// A lookup of what is known of a session's image.
pub struct MetadataTask {
    pub with_exif: bool,
}

/// The name of a container format, in lower case.
pub open spec fn format_label(format: SourceFormat) -> Seq<char> {
    match format {
        SourceFormat::Png => "png"@,
        SourceFormat::Jpeg => "jpeg"@,
        SourceFormat::Gif => "gif"@,
        SourceFormat::WebP => "webp"@,
        SourceFormat::Pnm => "pnm"@,
        SourceFormat::Tiff => "tiff"@,
        SourceFormat::Tga => "tga"@,
        SourceFormat::Bmp => "bmp"@,
        SourceFormat::Ico => "ico"@,
        SourceFormat::Farbfeld => "farbfeld"@,
        SourceFormat::Avif => "avif"@,
        SourceFormat::Dds => "dds"@,
        SourceFormat::Hdr => "hdr"@,
        SourceFormat::OpenExr => "openexr"@,
        SourceFormat::Qoi => "qoi"@,
        SourceFormat::Svg => "svg"@,
        SourceFormat::Other => "other"@,
    }
}

/// The name of a container format.
pub fn format_name(format: SourceFormat) -> (out: String)
    ensures
        out@ == format_label(format),
{
    match format {
        SourceFormat::Png => "png".to_string(),
        SourceFormat::Jpeg => "jpeg".to_string(),
        SourceFormat::Gif => "gif".to_string(),
        SourceFormat::WebP => "webp".to_string(),
        SourceFormat::Pnm => "pnm".to_string(),
        SourceFormat::Tiff => "tiff".to_string(),
        SourceFormat::Tga => "tga".to_string(),
        SourceFormat::Bmp => "bmp".to_string(),
        SourceFormat::Ico => "ico".to_string(),
        SourceFormat::Farbfeld => "farbfeld".to_string(),
        SourceFormat::Avif => "avif".to_string(),
        SourceFormat::Dds => "dds".to_string(),
        SourceFormat::Hdr => "hdr".to_string(),
        SourceFormat::OpenExr => "openexr".to_string(),
        SourceFormat::Qoi => "qoi".to_string(),
        SourceFormat::Svg => "svg".to_string(),
        SourceFormat::Other => "other".to_string(),
    }
}

/// A copy of a list of tags.
pub fn copy_pairs(pairs: &Vec<ExifPair>) -> (out: Vec<ExifPair>)
    ensures
        out@.len() == pairs@.len(),
        forall|i: int| 0 <= i < pairs@.len() ==> out@[i].name@ == pairs@[i].name@ && out@[i].text@ == pairs@[i].text@,
        pairs_map(out@) == pairs_map(pairs@),
        distinct_names(pairs@) ==> distinct_names(out@),
{
    let mut out: Vec<ExifPair> = Vec::new();
    let mut i: usize = 0;
    while i < pairs.len()
        invariant
            i <= pairs.len(),
            out@.len() == i,
            forall|k: int| 0 <= k < i ==> out@[k].name@ == pairs@[k].name@ && out@[k].text@ == pairs@[k].text@,
            pairs_map(out@) == pairs_map(pairs@.take(i as int)),
        decreases pairs.len() - i,
    {
        let ghost before = out@;
        out.push(ExifPair { name: pairs[i].name.clone(), text: pairs[i].text.clone() });
        assert(out@.drop_last() == before);
        assert(pairs@.take(i + 1).drop_last() == pairs@.take(i as int));
        i += 1;
    }
    assert(pairs@.take(pairs.len() as int) == pairs@);
    out
}

impl MetadataTask {
    /// `out` is what the state `seen` gives.
    pub open spec fn reads(seen: DecodedView, out: MetadataOutput) -> bool {
        &&& out.width == seen.raster.width
        &&& out.height == seen.raster.height
        &&& distinct_names(out.exif@)
        &&& pairs_map(out.exif@) == seen.exif
        &&& out.orientation == seen.orientation
        &&& out.format == seen.format
        &&& out.color_type == seen.raster.layout
    }

    /// Looks the session up, with EXIF if the task asks for it, and reads
    /// what is known of its image.
    ///
    /// Fails as the lookup fails, with `UnknownFormat` or `DecodeFailed`.
    pub fn compute(&mut self, session: &mut ThreadsafeDynamicImage) -> (out: Result<MetadataOutput, Error>)
        ensures
            final(self).with_exif == old(self).with_exif,
            final(session).raw_bytes() == old(session).raw_bytes(),
            old(session)@ is Some ==> out is Ok,
            old(session)@ is None && is_exact_file(old(session).raw_bytes()) ==> (out is Ok <==> decoded_image(
                old(session).raw_bytes(),
            ) is Some),
            out matches Ok(read) ==> {
                &&& final(session)@ matches Some(seen)
                &&& seen_from(*old(session), seen, old(self).with_exif)
                &&& old(session)@ is Some ==> final(session).decoded().unwrap().spec_image() == old(
                    session,
                ).decoded().unwrap().spec_image()
                &&& MetadataTask::reads(seen, read)
            },
            out matches Err(e) ==> final(session).decoded() == old(session).decoded() && (e == Error::UnknownFormat
                || e is DecodeFailed),
    {
        session.get(self.with_exif)?;
        match session.meta() {
            Some(meta) => Ok(
                MetadataOutput {
                    width: meta.width(),
                    height: meta.height(),
                    exif: copy_pairs(meta.exif()),
                    orientation: meta.orientation(),
                    format: meta.format(),
                    color_type: meta.color_type(),
                },
            ),
            None => Err(Error::UnknownFormat),
        }
    }

    /// What is known of the image, for the caller: the tags are left out
    /// where there are none, and the format has its name.
    ///
    /// Fails with `UnsupportedColorType` for a layout without a name.
    pub fn resolve(&mut self, output: MetadataOutput) -> (out: Result<Metadata, Error>)
        ensures
            final(self).with_exif == old(self).with_exif,
            out is Ok <==> output.color_type is Some,
            out matches Err(e) ==> e == Error::UnsupportedColorType,
            out matches Ok(data) ==> {
                &&& data.width == output.width
                &&& data.height == output.height
                &&& data.exif is Some <==> output.exif@.len() > 0
                &&& data.exif matches Some(pairs) ==> pairs == output.exif
                &&& data.orientation == match output.orientation {
                    Some(o) => Some(o as u32),
                    None => None,
                }
                &&& data.format@ == format_label(output.format)
                &&& Some(data.color_type) == output.color_type
            },
    {
        let color_type = match output.color_type {
            Some(layout) => layout,
            None => {
                return Err(Error::UnsupportedColorType);
            },
        };
        Ok(
            Metadata {
                width: output.width,
                height: output.height,
                exif: if output.exif.len() > 0 {
                    Some(output.exif)
                } else {
                    None
                },
                orientation: match output.orientation {
                    Some(o) => Some(o as u32),
                    None => None,
                },
                format: format_name(output.format),
                color_type,
            },
        )
    }
}

/// The first argument of `Transformer::resize`: a width, or all of the
/// options at once.
#[derive(Clone, Copy, Debug, PartialEq, Eq, Structural)]
pub enum WidthOrOptions {
    Width(u32),
    Options(ResizeOptions),
}

/// The options that a call of `Transformer::resize` sets.
pub open spec fn resize_request(
    width_or_options: WidthOrOptions,
    height: Option<u32>,
    filter: Option<ResizeFilterType>,
    fit: Option<ResizeFit>,
) -> ResizeOptions {
    match width_or_options {
        WidthOrOptions::Width(width) => ResizeOptions { width, height, filter, fit },
        WidthOrOptions::Options(options) => options,
    }
}

/// The nine coefficients of a kernel, where there are nine.
pub open spec fn kernel_of(kernel: Seq<u64>) -> [u64; 9]
    recommends
        kernel.len() == 9,
{
    [kernel[0], kernel[1], kernel[2], kernel[3], kernel[4], kernel[5], kernel[6], kernel[7], kernel[8]]
}

/// The number that is given, or the default.
pub open spec fn spec_number_or(value: Option<u32>, default: u32) -> u32 {
    match value {
        Some(v) => v,
        None => default,
    }
}

/// The number that is given, or the default.
pub fn number_or(value: Option<u32>, default: u32) -> (out: u32)
    ensures
        out == spec_number_or(value, default),
{
    match value {
        Some(v) => v,
        None => default,
    }
}

/// The PNG settings that are given, or those in which nothing is fixed.
pub open spec fn spec_png_settings_or_none(options: Option<PngEncodeOptions>) -> PngEncodeOptions {
    match options {
        Some(o) => o,
        None => no_png_settings(),
    }
}

/// The PNG settings that are given, or those in which nothing is fixed.
pub fn png_settings_or_none(options: Option<PngEncodeOptions>) -> (out: PngEncodeOptions)
    ensures
        out == spec_png_settings_or_none(options),
{
    match options {
        Some(o) => o,
        None => PngEncodeOptions::default(),
    }
}

/// An input with the transforms that are queued for it.
pub struct Transformer {
    dynamic_image: ThreadsafeDynamicImage,
    image_transform_args: ImageTransformArgs,
}

impl Transformer {
    /// The input with its decoded state.
    pub closed spec fn session(&self) -> ThreadsafeDynamicImage {
        self.dynamic_image
    }

    /// The transforms that are queued.
    pub closed spec fn queue(&self) -> QueueView {
        self.image_transform_args@
    }

    /// A transformer over an encoded image, with nothing queued. The image
    /// is decoded when it is first needed.
    pub fn new(input: Vec<u8>) -> (out: Transformer)
        ensures
            out.session().raw_bytes() == input@,
            out.session().decoded() is None,
            out.queue() == empty_queue(),
    {
        Transformer {
            dynamic_image: ThreadsafeDynamicImage::new(input),
            image_transform_args: ImageTransformArgs::default(),
        }
    }

    /// A transformer over an SVG, rasterized on a canvas of at least a
    /// thousand pixels a side, over the background if there is one. The
    /// background is a CSS3 color, e.g. rgba(255, 255, 255, .8). Text is laid
    /// out with `fonts`.
    ///
    /// Fails with `DecodeFailed` where the SVG or the color cannot be read,
    /// and with `InvalidDimensions` where the canvas would be larger than a
    /// canvas can be.
    pub fn from_svg(input: &[u8], background: Option<String>, fonts: &Arc<Database>) -> (out: Result<
        Transformer,
        Error,
    >)
        ensures
            out matches Ok(t) ==> {
                &&& t.queue() == empty_queue()
                &&& t.session()@ matches Some(state)
                &&& state.raster.width >= 1000
                &&& state.raster.height >= 1000
                &&& is_raster_size(state.raster.width as u32, state.raster.height as u32)
                &&& state.raster.layout == Some(JsColorType::Rgba8)
                &&& state.raster.bytes.len() == state.raster.width * state.raster.height * 4
                &&& state.format == SourceFormat::Png
                &&& state.has_parsed_exif
            },
            out matches Err(e) ==> e == Error::InvalidDimensions || (e matches Error::DecodeFailed { source, .. }
                && source == SourceFormat::Svg),
            background matches Some(text) ==> (css_color(text@) is None ==> out is Err),
    {
        let drawn = rasterize(input, background, fonts)?;
        match Transformer::from_rgba_pixels(drawn.pixels, drawn.width, drawn.height) {
            Ok(t) => Ok(t),
            Err(_) => Err(Error::InvalidDimensions),
        }
    }

    /// A transformer over raw pixels of four 8-bit channels, red, green,
    /// blue, alpha, row by row. It counts as decoded from PNG, without EXIF.
    ///
    /// Fails with `InvalidDimensions` where `input` is too short for `width`
    /// by `height` pixels.
    pub fn from_rgba_pixels(input: Vec<u8>, width: u32, height: u32) -> (out: Result<Transformer, Error>)
        ensures
            out is Ok <==> width * height * 4 <= input@.len(),
            out matches Err(e) ==> e == Error::InvalidDimensions,
            out matches Ok(t) ==> {
                &&& t.queue() == empty_queue()
                &&& t.session()@ matches Some(state)
                &&& state.raster.width == width
                &&& state.raster.height == height
                &&& state.raster.layout == Some(JsColorType::Rgba8)
                &&& state.raster.bytes == input@
                &&& state.format == SourceFormat::Png
                &&& state.exif == Map::<Seq<char>, Seq<char>>::empty()
                &&& state.orientation is None
                &&& state.has_parsed_exif
            },
    {
        match rgba8_from_vec(width, height, input) {
            Some(image) => {
                let mut raw: Vec<u8> = Vec::new();
                raw.push(0);
                Ok(
                    Transformer {
                        dynamic_image: ThreadsafeDynamicImage::from_decoded(
                            raw,
                            ImageMetaData::from_pixels(image, SourceFormat::Png),
                        ),
                        image_transform_args: ImageTransformArgs::default(),
                    },
                )
            },
            None => Err(Error::InvalidDimensions),
        }
    }

    /// Whether the input waits for pixels that only an AVIF decoder can
    /// give: it is not decoded and its container is AVIF.
    pub fn awaits_avif(&self) -> (waiting: bool)
        ensures
            waiting == self.session().waits_for_avif(),
    {
        self.dynamic_image.awaits_avif()
    }

    /// The bytes that the transformer was made of.
    pub fn input(&self) -> (bytes: &Vec<u8>)
        ensures
            bytes@ == self.session().raw_bytes(),
    {
        self.dynamic_image.raw()
    }

    /// Takes the samples that an AVIF decoder read from the input as the
    /// decoded image, if the input waits for them (see
    /// `ThreadsafeDynamicImage::supply_avif`).
    pub fn supply_avif(&mut self, width: u32, height: u32, samples: Vec<u8>, with_exif: bool) -> (out: Result<
        (),
        Error,
    >)
        ensures
            final(self).queue() == old(self).queue(),
            final(self).session().raw_bytes() == old(self).session().raw_bytes(),
            !old(self).session().waits_for_avif() ==> out is Ok && final(self).session().decoded() == old(
                self,
            ).session().decoded(),
            old(self).session().waits_for_avif() ==> {
                &&& out is Ok <==> avif_samples_fit(width as int, height as int, samples@.len() as int)
                &&& out is Err ==> final(self).session().decoded() is None
                &&& out is Ok ==> {
                    &&& is_first_decoded(
                        final(self).session()@,
                        SourceFormat::Avif,
                        old(self).session().raw_bytes(),
                        with_exif,
                    )
                    &&& final(self).session()@.unwrap().raster.width == width
                    &&& final(self).session()@.unwrap().raster.height == height
                    &&& final(self).session()@.unwrap().raster.layout == Some(
                        avif_layout(width as int, height as int, samples@.len() as int),
                    )
                    &&& final(self).session()@.unwrap().raster.bytes == samples@
                }
            },
            out matches Err(e) ==> e matches Error::DecodeFailed { source, .. } && source == SourceFormat::Avif,
    {
        self.dynamic_image.supply_avif(width, height, samples, with_exif)
    }

    /// A lookup of what is known of the image, with its EXIF if asked for.
    pub fn metadata(&mut self, with_exif: Option<bool>) -> (out: MetadataTask)
        ensures
            *final(self) == *old(self),
            out.with_exif == (with_exif == Some(true)),
    {
        MetadataTask {
            with_exif: match with_exif {
                Some(b) => b,
                None => false,
            },
        }
    }

    /// What is known of the image, with its EXIF if asked for. The input is
    /// decoded if that is not done.
    ///
    /// Fails with `UnknownFormat` or `DecodeFailed` where the input cannot be
    /// decoded, and with `UnsupportedColorType` for a layout without a name.
    pub fn metadata_sync(&mut self, with_exif: Option<bool>) -> (out: Result<Metadata, Error>)
        ensures
            final(self).queue() == old(self).queue(),
            final(self).session().raw_bytes() == old(self).session().raw_bytes(),
            old(self).session()@ matches Some(state) ==> (out is Ok <==> state.raster.layout is Some),
            old(self).session()@ is None && is_exact_file(old(self).session().raw_bytes()) ==> match decoded_image(
                old(self).session().raw_bytes(),
            ) {
                Some(raster) => out is Ok <==> raster.layout is Some,
                None => out is Err,
            },
            out is Ok ==> {
                &&& final(self).session()@ matches Some(seen)
                &&& seen_from(old(self).session(), seen, with_exif == Some(true))
                &&& old(self).session()@ is Some ==> final(self).session().decoded().unwrap().spec_image() == old(
                    self,
                ).session().decoded().unwrap().spec_image()
            },
            out matches Ok(data) ==> {
                let seen = final(self).session()@.unwrap();
                &&& data.width == seen.raster.width
                &&& data.height == seen.raster.height
                &&& data.exif is Some <==> seen.exif.dom().len() > 0
                &&& data.exif matches Some(pairs) ==> distinct_names(pairs@) && pairs_map(pairs@) == seen.exif
                &&& data.orientation == match seen.orientation {
                    Some(o) => Some(o as u32),
                    None => None,
                }
                &&& data.format@ == format_label(seen.format)
                &&& Some(data.color_type) == seen.raster.layout
            },
            out matches Err(e) ==> e == Error::UnknownFormat || e is DecodeFailed || e == Error::UnsupportedColorType,
            out is Err ==> only_looked_up(old(self).session(), final(self).session(), with_exif == Some(true)),
    {
        let mut task = self.metadata(with_exif);
        let output = task.compute(&mut self.dynamic_image)?;
        proof {
            lemma_pairs_map_empty(output.exif@);
        }
        task.resolve(output)
    }

    /// Rotate with exif orientation.
    /// If the orientation param is not null, the new orientation value will
    /// override the exif orientation value.
    pub fn rotate(&mut self, orientation: Option<Orientation>) -> (out: &Self)
        ensures
            *out == *final(self),
            final(self).session() == old(self).session(),
            final(self).queue() == (QueueView { rotate: true, orientation, ..old(self).queue() }),
    {
        self.image_transform_args.rotate = true;
        self.image_transform_args.orientation = orientation;
        self
    }

    /// Return a grayscale version of this image.
    /// Returns `Luma` images in most cases. However, for float images, this
    /// will return a greyscale `Rgb/Rgba` image instead.
    pub fn grayscale(&mut self) -> (out: &Self)
        ensures
            final(self).session() == old(self).session(),
            final(self).queue() == (QueueView { grayscale: true, ..old(self).queue() }),
            *out == *final(self),
    {
        self.image_transform_args.grayscale = true;
        self
    }

    /// Invert the colors of this image.
    pub fn invert(&mut self) -> (out: &Self)
        ensures
            *out == *final(self),
            final(self).session() == old(self).session(),
            final(self).queue() == (QueueView { invert: true, ..old(self).queue() }),
    {
        self.image_transform_args.invert = true;
        self
    }

    /// Resize this image using the specified filter algorithm.
    /// The first argument is the new width, which goes with the other
    /// arguments, or all of the options at once.
    pub fn resize(
        &mut self,
        width_or_options: WidthOrOptions,
        height: Option<u32>,
        filter: Option<ResizeFilterType>,
        fit: Option<ResizeFit>,
    ) -> (out: &Self)
        ensures
            *out == *final(self),
            final(self).session() == old(self).session(),
            final(self).queue() == (QueueView {
                resize: Some(resize_request(width_or_options, height, filter, fit)),
                ..old(self).queue()
            }),
    {
        match width_or_options {
            WidthOrOptions::Width(width) => {
                self.image_transform_args.resize = Some(ResizeOptions { width, height, filter, fit });
            },
            WidthOrOptions::Options(options) => {
                self.image_transform_args.resize = Some(options);
            },
        }
        self
    }

    /// Resize this image using the specified filter algorithm.
    ///
    /// This is using the faster SIMD based resize implementation; the resize
    /// filter is different from that of the `resize` method.
    pub fn fast_resize(&mut self, options: FastResizeOptions) -> (out: &Self)
        ensures
            *out == *final(self),
            final(self).session() == old(self).session(),
            final(self).queue() == (QueueView { fast_resize: Some(options), ..old(self).queue() }),
    {
        self.image_transform_args.fast_resize = Some(options);
        self
    }

    /// Performs a Gaussian blur on this image.
    /// `sigma` is a measure of how much to blur by, as the bit pattern of a
    /// double-precision number.
    pub fn blur(&mut self, sigma: u64) -> (out: &Self)
        ensures
            *out == *final(self),
            final(self).session() == old(self).session(),
            final(self).queue() == (QueueView { blur: Some(sigma), ..old(self).queue() }),
    {
        self.image_transform_args.blur = Some(sigma);
        self
    }

    /// Performs an unsharpen mask on this image.
    /// `sigma` is the amount to blur the image by, as the bit pattern of a
    /// double-precision number. `threshold` is a control of how much to
    /// sharpen.
    ///
    /// See <https://en.wikipedia.org/wiki/Unsharp_masking#Digital_unsharp_masking>
    pub fn unsharpen(&mut self, sigma: u64, threshold: i32) -> (out: &Self)
        ensures
            *out == *final(self),
            final(self).session() == old(self).session(),
            final(self).queue() == (QueueView { unsharpen: Some((sigma, threshold)), ..old(self).queue() }),
    {
        self.image_transform_args.unsharpen = Some((sigma, threshold));
        self
    }

    /// Filters this image with the specified 3x3 kernel, given row by row,
    /// each coefficient as the bit pattern of a double-precision number.
    ///
    /// Fails with `InvalidKernelSize` for a kernel that does not have nine
    /// coefficients, and then queues nothing.
    pub fn filter3x3(&mut self, kernel: Vec<u64>) -> (out: Result<&Self, Error>)
        ensures
            out matches Ok(t) ==> *t == *final(self),
            final(self).session() == old(self).session(),
            out is Ok <==> kernel@.len() == 9,
            out matches Err(e) ==> e == Error::InvalidKernelSize && final(self).queue() == old(self).queue(),
            out is Ok ==> final(self).queue() == (QueueView {
                filter3x3: Some(kernel_of(kernel@)),
                ..old(self).queue()
            }),
    {
        if kernel.len() != 9 {
            return Err(Error::InvalidKernelSize);
        }
        let coefficients: [u64; 9] = [
            kernel[0],
            kernel[1],
            kernel[2],
            kernel[3],
            kernel[4],
            kernel[5],
            kernel[6],
            kernel[7],
            kernel[8],
        ];
        assert(coefficients == kernel_of(kernel@));
        self.image_transform_args.filter3x3 = Some(coefficients);
        Ok(self)
    }

    /// Adjust the contrast of this image.
    /// `contrast` is the amount to adjust the contrast by, as the bit
    /// pattern of a double-precision number. Negative values decrease the
    /// contrast and positive values increase the contrast.
    pub fn adjust_contrast(&mut self, contrast: u64) -> (out: &Self)
        ensures
            *out == *final(self),
            final(self).session() == old(self).session(),
            final(self).queue() == (QueueView { contrast: Some(contrast), ..old(self).queue() }),
    {
        self.image_transform_args.contrast = Some(contrast);
        self
    }

    /// Brighten the pixels of this image.
    /// `brightness` is the amount to brighten each pixel by.
    /// Negative values decrease the brightness and positive values increase it.
    /// An encode of an image whose samples are no whole numbers then fails
    /// with `UnsupportedColorType`.
    pub fn brighten(&mut self, brightness: i32) -> (out: &Self)
        ensures
            *out == *final(self),
            final(self).session() == old(self).session(),
            final(self).queue() == (QueueView { brightness: Some(brightness), ..old(self).queue() }),
    {
        self.image_transform_args.brightness = Some(brightness);
        self
    }

    /// Hue rotate the supplied image.
    /// `hue` is the degrees to rotate each pixel by.
    /// 0 and 360 do nothing, the rest rotates by the given degree value.
    pub fn huerotate(&mut self, hue: i32) -> (out: &Self)
        ensures
            *out == *final(self),
            final(self).session() == old(self).session(),
            final(self).queue() == (QueueView { huerotate: Some(hue), ..old(self).queue() }),
    {
        self.image_transform_args.huerotate = Some(hue);
        self
    }

    /// Crop a cut-out of this image delimited by the bounding rectangle.
    pub fn crop(&mut self, x: u32, y: u32, width: u32, height: u32) -> (out: &Self)
        ensures
            *out == *final(self),
            final(self).session() == old(self).session(),
            final(self).queue() == (QueueView { crop: Some((x, y, width, height)), ..old(self).queue() }),
    {
        self.image_transform_args.crop = Some((x, y, width, height));
        self
    }

    /// Overlay an image at a given coordinate (x, y). The overlays are laid
    /// over in the order of the calls.
    pub fn overlay(&mut self, on_top: Vec<u8>, x: i64, y: i64) -> (out: Result<&Self, Error>)
        ensures
            out matches Ok(t) && *t == *final(self),
            final(self).session() == old(self).session(),
            final(self).queue() == (QueueView {
                overlay: old(self).queue().overlay.push(OverlayView { source: on_top@, x, y, avif: None }),
                ..old(self).queue()
            }),
    {
        let ghost before = self.image_transform_args.overlay@;
        let top = Overlay { source: on_top, x, y, avif: None };
        self.image_transform_args.overlay.push(top);
        assert(overlays_view(self.image_transform_args.overlay@) =~= overlays_view(before).push(top@));
        Ok(self)
    }

    /// Overlay an image in AVIF at a given coordinate (x, y), with the
    /// samples that an AVIF decoder read from it.
    pub fn overlay_avif(&mut self, on_top: Vec<u8>, pixels: AvifPixels, x: i64, y: i64) -> (out: Result<&Self, Error>)
        ensures
            out matches Ok(t) && *t == *final(self),
            final(self).session() == old(self).session(),
            final(self).queue() == (QueueView {
                overlay: old(self).queue().overlay.push(
                    OverlayView { source: on_top@, x, y, avif: Some(pixels@) },
                ),
                ..old(self).queue()
            }),
    {
        let ghost before = self.image_transform_args.overlay@;
        let top = Overlay { source: on_top, x, y, avif: Some(pixels) };
        self.image_transform_args.overlay.push(top);
        assert(overlays_view(self.image_transform_args.overlay@) =~= overlays_view(before).push(top@));
        Ok(self)
    }

    /// A task that encodes to `options` with the transforms that are queued
    /// now.
    fn task(&self, options: EncodeOptions) -> (out: EncodeTask)
        ensures
            out.options() == options,
            out.queue() == self.queue(),
            out.stage() == Stage::Start,
    {
        EncodeTask::new(options, self.image_transform_args.duplicate())
    }

    /// Starts an encode to `options` with the transforms that are queued
    /// now.
    fn run(&mut self, options: EncodeOptions) -> (out: Result<Progress, Error>)
        ensures
            final(self).queue() == old(self).queue(),
            final(self).session().raw_bytes() == old(self).session().raw_bytes(),
            started(old(self).queue(), options, old(self).session(), final(self).session(), out),
    {
        let task = self.task(options);
        task.compute(&mut self.dynamic_image, None)
    }

    /// Starts a task on this transformer's image.
    pub fn start(&mut self, task: EncodeTask) -> (out: Result<Progress, Error>)
        requires
            task.stage() is Start,
        ensures
            final(self).queue() == old(self).queue(),
            final(self).session().raw_bytes() == old(self).session().raw_bytes(),
            started(task.queue(), task.options(), old(self).session(), final(self).session(), out),
    {
        task.compute(&mut self.dynamic_image, None)
    }

    /// Hands the result of a filter to the task that waited for it, and lets
    /// the task go on.
    pub fn resume(&mut self, task: EncodeTask, filtered: DynamicImage) -> (out: Result<Progress, Error>)
        requires
            task.stage() is Await,
        ensures
            final(self).queue() == old(self).queue(),
            final(self).session().raw_bytes() == old(self).session().raw_bytes(),
            resumed(
                task.queue(),
                task.options(),
                task.stage(),
                old(self).session(),
                final(self).session(),
                filtered,
                out,
            ),
    {
        task.compute(&mut self.dynamic_image, Some(filtered))
    }

    /// A task that encodes the image as lossy WebP, after the transforms
    /// that are queued now. The quality factor ranges from 0 to 100 and
    /// controls the loss and quality during compression; the default is 90.
    pub fn webp(&mut self, quality_factor: Option<u32>) -> (out: EncodeTask)
        ensures
            *final(self) == *old(self),
            out.options() == EncodeOptions::Webp(spec_number_or(quality_factor, 90)),
            out.queue() == old(self).queue(),
            out.stage() == Stage::Start,
    {
        self.task(EncodeOptions::Webp(number_or(quality_factor, 90)))
    }

    /// Encodes the image as lossy WebP, after the transforms that are queued
    /// now, as far as that goes without a filter with real-number parameters
    /// (see `EncodeTask::compute`). The quality factor ranges from 0 to 100
    /// and controls the loss and quality during compression; the default is
    /// 90.
    pub fn webp_sync(&mut self, quality_factor: Option<u32>) -> (out: Result<Progress, Error>)
        ensures
            final(self).queue() == old(self).queue(),
            final(self).session().raw_bytes() == old(self).session().raw_bytes(),
            started(
                old(self).queue(),
                EncodeOptions::Webp(spec_number_or(quality_factor, 90)),
                old(self).session(),
                final(self).session(),
                out,
            ),
    {
        self.run(EncodeOptions::Webp(number_or(quality_factor, 90)))
    }

    /// A task that encodes the image as lossless WebP, after the transforms
    /// that are queued now.
    pub fn webp_lossless(&mut self) -> (out: EncodeTask)
        ensures
            *final(self) == *old(self),
            out.options() == EncodeOptions::WebpLossless,
            out.queue() == old(self).queue(),
            out.stage() == Stage::Start,
    {
        self.task(EncodeOptions::WebpLossless)
    }

    /// Encodes the image as lossless WebP, after the transforms that are
    /// queued now, as far as that goes without a filter with real-number
    /// parameters (see `EncodeTask::compute`).
    pub fn webp_lossless_sync(&mut self) -> (out: Result<Progress, Error>)
        ensures
            final(self).queue() == old(self).queue(),
            final(self).session().raw_bytes() == old(self).session().raw_bytes(),
            started(old(self).queue(), EncodeOptions::WebpLossless, old(self).session(), final(self).session(), out),
    {
        self.run(EncodeOptions::WebpLossless)
    }

    /// A task that encodes the image as AVIF, after the transforms that are
    /// queued now.
    pub fn avif(&mut self, options: Option<AvifConfig>) -> (out: EncodeTask)
        ensures
            *final(self) == *old(self),
            out.options() == EncodeOptions::Avif(options),
            out.queue() == old(self).queue(),
            out.stage() == Stage::Start,
    {
        self.task(EncodeOptions::Avif(options))
    }

    /// Encodes the image as AVIF, after the transforms that are queued now, as
    /// far as that goes without a filter with real-number parameters (see
    /// `EncodeTask::compute`).
    pub fn avif_sync(&mut self, options: Option<AvifConfig>) -> (out: Result<Progress, Error>)
        ensures
            final(self).queue() == old(self).queue(),
            final(self).session().raw_bytes() == old(self).session().raw_bytes(),
            started(old(self).queue(), EncodeOptions::Avif(options), old(self).session(), final(self).session(), out),
    {
        self.run(EncodeOptions::Avif(options))
    }

    /// A task that encodes the image as PNG, after the transforms that are
    /// queued now.
    pub fn png(&mut self, options: Option<PngEncodeOptions>) -> (out: EncodeTask)
        ensures
            *final(self) == *old(self),
            out.options() == EncodeOptions::Png(spec_png_settings_or_none(options)),
            out.queue() == old(self).queue(),
            out.stage() == Stage::Start,
    {
        self.task(EncodeOptions::Png(png_settings_or_none(options)))
    }

    /// Encodes the image as PNG, after the transforms that are queued now, as
    /// far as that goes without a filter with real-number parameters (see
    /// `EncodeTask::compute`).
    pub fn png_sync(&mut self, options: Option<PngEncodeOptions>) -> (out: Result<Progress, Error>)
        ensures
            final(self).queue() == old(self).queue(),
            final(self).session().raw_bytes() == old(self).session().raw_bytes(),
            started(
                old(self).queue(),
                EncodeOptions::Png(spec_png_settings_or_none(options)),
                old(self).session(),
                final(self).session(),
                out,
            ),
    {
        self.run(EncodeOptions::Png(png_settings_or_none(options)))
    }

    /// A task that encodes the image as JPEG, after the transforms that are
    /// queued now. The default quality is 90.
    pub fn jpeg(&mut self, quality: Option<u32>) -> (out: EncodeTask)
        ensures
            *final(self) == *old(self),
            out.options() == EncodeOptions::Jpeg(spec_number_or(quality, 90)),
            out.queue() == old(self).queue(),
            out.stage() == Stage::Start,
    {
        self.task(EncodeOptions::Jpeg(number_or(quality, 90)))
    }

    /// Encodes the image as JPEG, after the transforms that are queued now,
    /// as far as that goes without a filter with real-number parameters (see
    /// `EncodeTask::compute`). The default quality is 90.
    pub fn jpeg_sync(&mut self, quality: Option<u32>) -> (out: Result<Progress, Error>)
        ensures
            final(self).queue() == old(self).queue(),
            final(self).session().raw_bytes() == old(self).session().raw_bytes(),
            started(
                old(self).queue(),
                EncodeOptions::Jpeg(spec_number_or(quality, 90)),
                old(self).session(),
                final(self).session(),
                out,
            ),
    {
        self.run(EncodeOptions::Jpeg(number_or(quality, 90)))
    }

    /// A task that encodes the image as BMP, after the transforms that are
    /// queued now.
    pub fn bmp(&mut self) -> (out: EncodeTask)
        ensures
            *final(self) == *old(self),
            out.options() == EncodeOptions::Bmp,
            out.queue() == old(self).queue(),
            out.stage() == Stage::Start,
    {
        self.task(EncodeOptions::Bmp)
    }

    /// Encodes the image as BMP, after the transforms that are queued now, as
    /// far as that goes without a filter with real-number parameters (see
    /// `EncodeTask::compute`).
    pub fn bmp_sync(&mut self) -> (out: Result<Progress, Error>)
        ensures
            final(self).queue() == old(self).queue(),
            final(self).session().raw_bytes() == old(self).session().raw_bytes(),
            started(old(self).queue(), EncodeOptions::Bmp, old(self).session(), final(self).session(), out),
    {
        self.run(EncodeOptions::Bmp)
    }

    /// A task that encodes the image as ICO, after the transforms that are
    /// queued now.
    pub fn ico(&mut self) -> (out: EncodeTask)
        ensures
            *final(self) == *old(self),
            out.options() == EncodeOptions::Ico,
            out.queue() == old(self).queue(),
            out.stage() == Stage::Start,
    {
        self.task(EncodeOptions::Ico)
    }

    /// Encodes the image as ICO, after the transforms that are queued now, as
    /// far as that goes without a filter with real-number parameters (see
    /// `EncodeTask::compute`).
    pub fn ico_sync(&mut self) -> (out: Result<Progress, Error>)
        ensures
            final(self).queue() == old(self).queue(),
            final(self).session().raw_bytes() == old(self).session().raw_bytes(),
            started(old(self).queue(), EncodeOptions::Ico, old(self).session(), final(self).session(), out),
    {
        self.run(EncodeOptions::Ico)
    }

    /// A task that encodes the image as TIFF, after the transforms that are
    /// queued now.
    pub fn tiff(&mut self) -> (out: EncodeTask)
        ensures
            *final(self) == *old(self),
            out.options() == EncodeOptions::Tiff,
            out.queue() == old(self).queue(),
            out.stage() == Stage::Start,
    {
        self.task(EncodeOptions::Tiff)
    }

    /// Encodes the image as TIFF, after the transforms that are queued now, as
    /// far as that goes without a filter with real-number parameters (see
    /// `EncodeTask::compute`).
    pub fn tiff_sync(&mut self) -> (out: Result<Progress, Error>)
        ensures
            final(self).queue() == old(self).queue(),
            final(self).session().raw_bytes() == old(self).session().raw_bytes(),
            started(old(self).queue(), EncodeOptions::Tiff, old(self).session(), final(self).session(), out),
    {
        self.run(EncodeOptions::Tiff)
    }

    /// A task that encodes the image as PNM, after the transforms that are
    /// queued now.
    pub fn pnm(&mut self) -> (out: EncodeTask)
        ensures
            *final(self) == *old(self),
            out.options() == EncodeOptions::Pnm,
            out.queue() == old(self).queue(),
            out.stage() == Stage::Start,
    {
        self.task(EncodeOptions::Pnm)
    }

    /// Encodes the image as PNM, after the transforms that are queued now, as
    /// far as that goes without a filter with real-number parameters (see
    /// `EncodeTask::compute`).
    pub fn pnm_sync(&mut self) -> (out: Result<Progress, Error>)
        ensures
            final(self).queue() == old(self).queue(),
            final(self).session().raw_bytes() == old(self).session().raw_bytes(),
            started(old(self).queue(), EncodeOptions::Pnm, old(self).session(), final(self).session(), out),
    {
        self.run(EncodeOptions::Pnm)
    }

    /// A task that encodes the image as TGA, after the transforms that are
    /// queued now.
    pub fn tga(&mut self) -> (out: EncodeTask)
        ensures
            *final(self) == *old(self),
            out.options() == EncodeOptions::Tga,
            out.queue() == old(self).queue(),
            out.stage() == Stage::Start,
    {
        self.task(EncodeOptions::Tga)
    }

    /// Encodes the image as TGA, after the transforms that are queued now, as
    /// far as that goes without a filter with real-number parameters (see
    /// `EncodeTask::compute`).
    pub fn tga_sync(&mut self) -> (out: Result<Progress, Error>)
        ensures
            final(self).queue() == old(self).queue(),
            final(self).session().raw_bytes() == old(self).session().raw_bytes(),
            started(old(self).queue(), EncodeOptions::Tga, old(self).session(), final(self).session(), out),
    {
        self.run(EncodeOptions::Tga)
    }

    /// A task that encodes the image as farbfeld, after the transforms that
    /// are queued now.
    pub fn farbfeld(&mut self) -> (out: EncodeTask)
        ensures
            *final(self) == *old(self),
            out.options() == EncodeOptions::Farbfeld,
            out.queue() == old(self).queue(),
            out.stage() == Stage::Start,
    {
        self.task(EncodeOptions::Farbfeld)
    }

    /// Encodes the image as farbfeld, after the transforms that are queued
    /// now, as far as that goes without a filter with real-number parameters
    /// (see `EncodeTask::compute`).
    pub fn farbfeld_sync(&mut self) -> (out: Result<Progress, Error>)
        ensures
            final(self).queue() == old(self).queue(),
            final(self).session().raw_bytes() == old(self).session().raw_bytes(),
            started(old(self).queue(), EncodeOptions::Farbfeld, old(self).session(), final(self).session(), out),
    {
        self.run(EncodeOptions::Farbfeld)
    }

    /// A task that returns this image's pixels as a native endian byte
    /// slice, after the transforms that are queued now.
    pub fn raw_pixels(&self) -> (out: EncodeTask)
        ensures
            out.options() == EncodeOptions::RawPixels,
            out.queue() == self.queue(),
            out.stage() == Stage::Start,
    {
        self.task(EncodeOptions::RawPixels)
    }

    /// Return this image's pixels as a native endian byte slice, after the
    /// transforms that are queued now, as far as that goes without a filter
    /// with real-number parameters (see `EncodeTask::compute`).
    pub fn raw_pixels_sync(&mut self) -> (out: Result<Progress, Error>)
        ensures
            final(self).queue() == old(self).queue(),
            final(self).session().raw_bytes() == old(self).session().raw_bytes(),
            started(old(self).queue(), EncodeOptions::RawPixels, old(self).session(), final(self).session(), out),
    {
        self.run(EncodeOptions::RawPixels)
    }
}

/// A list of tags is empty exactly if its mapping is.
pub proof fn lemma_pairs_map_empty(pairs: Seq<ExifPair>)
    ensures
        pairs_map(pairs).dom().finite(),
        pairs.len() > 0 <==> pairs_map(pairs).dom().len() > 0,
    decreases pairs.len(),
{
    if pairs.len() > 0 {
        lemma_pairs_map_empty(pairs.drop_last());
        let rest = pairs_map(pairs.drop_last());
        assert(pairs_map(pairs).dom() =~= rest.dom().insert(pairs.last().name@));
    } else {
        assert(pairs_map(pairs).dom() =~= Set::<Seq<char>>::empty());
    }
}

} // verus!
