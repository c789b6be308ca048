//! The decoded state of an input: decoded on first use, kept from then on.
use crate::error::Error;
use crate::error::SourceFormat;
use crate::exif::ExifPair;
use crate::exif::distinct_names;
use crate::exif::pairs_map;
use crate::exif::parse_exif;
use crate::exif::spec_parse_exif;
use crate::raster::Raster;
use crate::raster::decode_image;
use crate::raster::decoded_image;
use crate::raster::is_exact_file;
use crate::raster::image_height;
use crate::raster::image_layout;
use crate::raster::image_width;
use crate::raster::luma8_from_vec;
use crate::raster::pixel_bytes;
use crate::raster::pixel_height;
use crate::raster::pixel_layout;
use crate::raster::pixel_width;
use crate::raster::raster_of;
use crate::raster::rgb8_from_vec;
use crate::raster::rgba8_from_vec;
use crate::raster::sniff;
use crate::raster::sniffed;
use crate::transformer::JsColorType;
use crate::utils::lemma_side_product;
use image::DynamicImage;
use vstd::prelude::*;

verus! {

/// A decoded image with what is known of its source.
pub struct ImageMetaData {
    image: DynamicImage,
    exif: Vec<ExifPair>,
    orientation: Option<u16>,
    format: SourceFormat,
    has_parsed_exif: bool,
}

/// What an `ImageMetaData` holds.
pub ghost struct DecodedView {
    /// The pixels.
    pub raster: Raster,
    /// The container that the input was sniffed as.
    pub format: SourceFormat,
    /// The EXIF tags by name; empty until EXIF parsing ran.
    pub exif: Map<Seq<char>, Seq<char>>,
    /// The EXIF orientation, where parsing ran and found one.
    pub orientation: Option<u16>,
    /// Whether EXIF parsing has been attempted.
    pub has_parsed_exif: bool,
}

/// The tags and the orientation that EXIF parsing leaves in the state: those
/// of the file, or none where the file yields none.
pub open spec fn exif_outcome(bytes: Seq<u8>, format: SourceFormat) -> (Map<Seq<char>, Seq<char>>, Option<u16>) {
    match spec_parse_exif(bytes, format) {
        Some(found) => found,
        None => (Map::empty(), None),
    }
}

/// The state after a request that may ask for EXIF, on an input that is
/// decoded already: the pixels stay, and EXIF is parsed if it is asked for
/// now and was not parsed before.
pub open spec fn refreshed(before: DecodedView, bytes: Seq<u8>, with_exif: bool) -> DecodedView {
    if with_exif && !before.has_parsed_exif {
        DecodedView {
            exif: exif_outcome(bytes, before.format).0,
            orientation: exif_outcome(bytes, before.format).1,
            has_parsed_exif: true,
            ..before
        }
    } else {
        before
    }
}

/// EXIF is parsed once at most: a state in which it was parsed stays as it is
/// whatever is asked for, the first request for EXIF parses it, and the
/// pixels and the format are never touched.
pub proof fn lemma_exif_parsed_once(state: DecodedView, bytes: Seq<u8>, first: bool, second: bool)
    ensures
        state.has_parsed_exif ==> refreshed(state, bytes, first) == state,
        refreshed(state, bytes, first).has_parsed_exif == (state.has_parsed_exif || first),
        refreshed(refreshed(state, bytes, true), bytes, second) == refreshed(state, bytes, true),
        refreshed(refreshed(state, bytes, first), bytes, second) == refreshed(state, bytes, first || second),
        refreshed(state, bytes, first).raster == state.raster,
        refreshed(state, bytes, first).format == state.format,
{
}

/// The state that a first decode leaves, given the pixels that came of it.
pub open spec fn first_decoded(raster: Raster, format: SourceFormat, bytes: Seq<u8>, with_exif: bool) -> DecodedView {
    DecodedView {
        raster,
        format,
        exif: if with_exif {
            exif_outcome(bytes, format).0
        } else {
            Map::empty()
        },
        orientation: if with_exif {
            exif_outcome(bytes, format).1
        } else {
            None
        },
        has_parsed_exif: with_exif,
    }
}

/// `state` is what a first decode of `format` leaves, whatever the pixels.
pub open spec fn is_first_decoded(state: Option<DecodedView>, format: SourceFormat, bytes: Seq<u8>, with_exif: bool) -> bool {
    match state {
        Some(v) => v == first_decoded(v.raster, format, bytes, with_exif),
        None => false,
    }
}

impl ImageMetaData {
    #[verifier::type_invariant]
    spec fn well_formed(&self) -> bool {
        &&& distinct_names(self.exif@)
        &&& !self.has_parsed_exif ==> self.exif@.len() == 0 && self.orientation is None
    }

    /// What the state holds.
    pub closed spec fn view(&self) -> DecodedView {
        DecodedView {
            raster: raster_of(self.image),
            format: self.format,
            exif: pairs_map(self.exif@),
            orientation: self.orientation,
            has_parsed_exif: self.has_parsed_exif,
        }
    }

    /// The image itself.
    pub closed spec fn spec_image(&self) -> DynamicImage {
        self.image
    }

    /// The state of an image that was built from pixels: no EXIF, and none
    /// to look for.
    pub fn from_pixels(image: DynamicImage, format: SourceFormat) -> (out: Self)
        ensures
            out.spec_image() == image,
            out@ == (DecodedView {
                raster: raster_of(image),
                format,
                exif: Map::empty(),
                orientation: None,
                has_parsed_exif: true,
            }),
    {
        ImageMetaData { image, exif: Vec::new(), orientation: None, format, has_parsed_exif: true }
    }

    /// The pixels.
    pub fn image(&self) -> (img: &DynamicImage)
        ensures
            *img == self.spec_image(),
            raster_of(*img) == self@.raster,
    {
        &self.image
    }

    /// The width of the image in pixels.
    pub fn width(&self) -> (w: u32)
        ensures
            w == self@.raster.width,
    {
        image_width(&self.image)
    }

    /// The height of the image in pixels.
    pub fn height(&self) -> (h: u32)
        ensures
            h == self@.raster.height,
    {
        image_height(&self.image)
    }

    /// The channel layout of the pixels.
    pub fn color_type(&self) -> (layout: Option<JsColorType>)
        ensures
            layout == self@.raster.layout,
    {
        image_layout(&self.image)
    }

    /// The container that the input was sniffed as.
    pub fn format(&self) -> (format: SourceFormat)
        ensures
            format == self@.format,
    {
        self.format
    }

    /// The EXIF orientation, where parsing ran and found one.
    pub fn orientation(&self) -> (orientation: Option<u16>)
        ensures
            orientation == self@.orientation,
    {
        self.orientation
    }

    /// Whether EXIF parsing has been attempted.
    pub fn has_parsed_exif(&self) -> (parsed: bool)
        ensures
            parsed == self@.has_parsed_exif,
    {
        self.has_parsed_exif
    }

    /// The EXIF tags, each name once.
    pub fn exif(&self) -> (pairs: &Vec<ExifPair>)
        ensures
            distinct_names(pairs@),
            pairs_map(pairs@) == self@.exif,
    {
        proof {
            use_type_invariant(self);
        }
        &self.exif
    }

    /// Parses EXIF from `raw` if it is asked for and was not parsed before.
    fn refresh(&mut self, raw: &[u8], with_exif: bool)
        ensures
            final(self)@ == refreshed(old(self)@, raw@, with_exif),
            final(self).spec_image() == old(self).spec_image(),
    {
        proof {
            use_type_invariant(&*self);
        }
        if !self.has_parsed_exif && with_exif {
            self.has_parsed_exif = true;
            match parse_exif(raw, self.format) {
                Some((exif, orientation)) => {
                    self.exif = exif;
                    self.orientation = orientation;
                },
                None => {
                    assert(pairs_map(self.exif@) == Map::<Seq<char>, Seq<char>>::empty());
                },
            }
        }
    }
}

/// What came of handing the input to the decoder of its container: the image,
/// or the failure with the decoder's words.
pub fn decode_outcome(format: SourceFormat, outcome: Result<DynamicImage, String>) -> (out: Result<
    DynamicImage,
    Error,
>)
    ensures
        out == match outcome {
            Ok(image) => Ok::<DynamicImage, Error>(image),
            Err(detail) => Err(Error::DecodeFailed { source: format, detail }),
        },
{
    match outcome {
        Ok(image) => Ok(image),
        Err(detail) => Err(Error::DecodeFailed { source: format, detail }),
    }
}

/// The layout that decoded AVIF samples are in, told by their number: three
/// for each pixel are RGB, four are RGBA, anything else is taken for
/// luminance.
pub open spec fn avif_layout(width: int, height: int, len: int) -> JsColorType {
    if width * height * 3 == len {
        JsColorType::Rgb8
    } else if width * height * 4 == len {
        JsColorType::Rgba8
    } else {
        JsColorType::L8
    }
}

/// Whether decoded AVIF samples make an image: in the layout that their
/// number tells there must be enough of them for every pixel.
pub open spec fn avif_samples_fit(width: int, height: int, len: int) -> bool {
    match avif_layout(width, height, len) {
        JsColorType::L8 => width * height <= len,
        _ => true,
    }
}

/// The image that decoded AVIF samples make.
///
/// Fails with `DecodeFailed` where there are too few samples for the size.
pub fn avif_image(width: u32, height: u32, samples: Vec<u8>) -> (out: Result<DynamicImage, Error>)
    ensures
        out is Ok <==> avif_samples_fit(width as int, height as int, samples@.len() as int),
        out matches Ok(img) ==> {
            &&& pixel_width(img) == width
            &&& pixel_height(img) == height
            &&& pixel_layout(img) == Some(avif_layout(width as int, height as int, samples@.len() as int))
            &&& pixel_bytes(img) == samples@
        },
        out matches Err(e) ==> e matches Error::DecodeFailed { source, .. } && source == SourceFormat::Avif,
{
    proof {
        lemma_side_product(width as int, height as int);
    }
    let pixels: u128 = (width as u128) * (height as u128);
    let len: u128 = samples.len() as u128;
    let built = if pixels * 3 == len {
        rgb8_from_vec(width, height, samples)
    } else if pixels * 4 == len {
        rgba8_from_vec(width, height, samples)
    } else {
        luma8_from_vec(width, height, samples)
    };
    match built {
        Some(img) => Ok(img),
        None => Err(
            Error::DecodeFailed { source: SourceFormat::Avif, detail: "Decode avif image failed".to_string() },
        ),
    }
}

/// Whether the bytes are sniffed as AVIF.
pub fn is_avif(bytes: &[u8]) -> (out: bool)
    ensures
        out == (sniffed(bytes@) == Some(SourceFormat::Avif)),
{
    match sniff(bytes) {
        Some(SourceFormat::Avif) => true,
        _ => false,
    }
}

/// An input with its decoded state, which is made on first use and kept.
pub struct ThreadsafeDynamicImage {
    raw: Vec<u8>,
    image: Option<ImageMetaData>,
}

impl ThreadsafeDynamicImage {
    /// The bytes that the session was made of.
    pub closed spec fn raw_bytes(&self) -> Seq<u8> {
        self.raw@
    }

    /// The decoded state, once there is one.
    pub closed spec fn decoded(&self) -> Option<ImageMetaData> {
        self.image
    }

    /// What the decoded state holds, once there is one.
    pub open spec fn view(&self) -> Option<DecodedView> {
        match self.decoded() {
            Some(meta) => Some(meta@),
            None => None,
        }
    }

    /// The state that is seen is that of the decoded image.
    pub proof fn lemma_view_of_image(&self)
        ensures
            self.decoded() matches Some(meta) ==> self@ == Some(meta@) && meta@.raster == raster_of(meta.spec_image()),
    {
    }

    /// A session over `input`, not decoded yet.
    pub fn new(input: Vec<u8>) -> (out: Self)
        ensures
            out.raw_bytes() == input@,
            out.decoded() is None,
    {
        ThreadsafeDynamicImage { raw: input, image: None }
    }

    /// A session that starts from a decoded state.
    pub fn from_decoded(raw: Vec<u8>, meta: ImageMetaData) -> (out: Self)
        ensures
            out.raw_bytes() == raw@,
            out.decoded() == Some(meta),
    {
        ThreadsafeDynamicImage { raw, image: Some(meta) }
    }

    /// The bytes that the session was made of.
    pub fn raw(&self) -> (bytes: &Vec<u8>)
        ensures
            bytes@ == self.raw_bytes(),
    {
        &self.raw
    }

    /// The decoded state, once there is one.
    pub fn meta(&self) -> (meta: Option<&ImageMetaData>)
        ensures
            meta is Some <==> self.decoded() is Some,
            meta matches Some(m) ==> Some(*m) == self.decoded(),
    {
        self.image.as_ref()
    }

    /// Gives up the session for its decoded image, if it has one.
    pub fn into_image(self) -> (out: Option<DynamicImage>)
        ensures
            out is Some <==> self.decoded() is Some,
            out matches Some(img) ==> img == self.decoded().unwrap().spec_image(),
    {
        match self.image {
            Some(meta) => Some(meta.image),
            None => None,
        }
    }

    /// Whether the input waits for pixels that only an AVIF decoder can
    /// give: it is not decoded and its container is AVIF.
    pub fn awaits_avif(&self) -> (waiting: bool)
        ensures
            waiting == self.waits_for_avif(),
    {
        match self.image {
            Some(_) => false,
            None => match sniff(self.raw.as_slice()) {
                Some(SourceFormat::Avif) => true,
                _ => false,
            },
        }
    }

    /// The session waits for the pixels of an AVIF decoder.
    pub open spec fn waits_for_avif(&self) -> bool {
        self.decoded() is None && sniffed(self.raw_bytes()) == Some(SourceFormat::Avif)
    }

    /// Takes the samples that an AVIF decoder read from the input as the
    /// decoded image of a session that waits for them. On any other session
    /// nothing changes.
    ///
    /// Fails with `DecodeFailed` where there are too few samples for the
    /// size, and leaves the session undecoded.
    pub fn supply_avif(&mut self, width: u32, height: u32, samples: Vec<u8>, with_exif: bool) -> (out: Result<
        (),
        Error,
    >)
        ensures
            final(self).raw_bytes() == old(self).raw_bytes(),
            !old(self).waits_for_avif() ==> out is Ok && final(self).decoded() == old(self).decoded(),
            old(self).waits_for_avif() ==> {
                &&& out is Ok <==> avif_samples_fit(width as int, height as int, samples@.len() as int)
                &&& out is Err ==> final(self).decoded() is None
                &&& out is Ok ==> {
                    &&& is_first_decoded(final(self)@, SourceFormat::Avif, old(self).raw_bytes(), with_exif)
                    &&& final(self)@.unwrap().raster.width == width
                    &&& final(self)@.unwrap().raster.height == height
                    &&& final(self)@.unwrap().raster.layout == Some(
                        avif_layout(width as int, height as int, samples@.len() as int),
                    )
                    &&& final(self)@.unwrap().raster.bytes == samples@
                }
            },
            out matches Err(e) ==> e matches Error::DecodeFailed { source, .. } && source == SourceFormat::Avif,
    {
        if !self.awaits_avif() {
            return Ok(());
        }
        let img = avif_image(width, height, samples)?;
        let mut meta = ImageMetaData {
            image: img,
            exif: Vec::new(),
            orientation: None,
            format: SourceFormat::Avif,
            has_parsed_exif: false,
        };
        assert(pairs_map(meta.exif@) == Map::<Seq<char>, Seq<char>>::empty());
        meta.refresh(self.raw.as_slice(), with_exif);
        self.image = Some(meta);
        Ok(())
    }

    /// Decodes the input on first use and keeps the result; later calls find
    /// it there. EXIF is parsed when it is first asked for, at the first
    /// decode or later, and only once; an input whose EXIF cannot be read has
    /// none.
    ///
    /// A first use fails with `UnknownFormat` where the bytes match no
    /// container, and with `DecodeFailed` where the decoder of the container
    /// rejects them or there is none for it, as for AVIF (see `supply_avif`).
    /// For a container that decodes exactly, the image is the one that the
    /// decoder gives for these bytes on every machine.
    /// A failure leaves the session as it was.
    pub fn get(&mut self, with_exif: bool) -> (out: Result<(), Error>)
        ensures
            final(self).raw_bytes() == old(self).raw_bytes(),
            old(self)@ matches Some(before) ==> {
                &&& out is Ok
                &&& final(self)@ == Some(refreshed(before, old(self).raw_bytes(), with_exif))
                &&& final(self).decoded().unwrap().spec_image() == old(self).decoded().unwrap().spec_image()
            },
            old(self)@ is None ==> {
                &&& sniffed(old(self).raw_bytes()) is None ==> out == Err::<(), Error>(Error::UnknownFormat)
                &&& sniffed(old(self).raw_bytes()) matches Some(format) ==> match out {
                    Ok(()) => format != SourceFormat::Avif && is_first_decoded(
                        final(self)@,
                        format,
                        old(self).raw_bytes(),
                        with_exif,
                    ),
                    Err(e) => e matches Error::DecodeFailed { source, .. } && source == format,
                }
                &&& is_exact_file(old(self).raw_bytes()) ==> match decoded_image(old(self).raw_bytes()) {
                    Some(raster) => out is Ok && final(self)@.unwrap().raster == raster,
                    None => out is Err,
                }
            },
            out is Err ==> final(self).decoded() == old(self).decoded(),
    {
        match &mut self.image {
            Some(meta) => {
                meta.refresh(self.raw.as_slice(), with_exif);
                Ok(())
            },
            None => {
                let format = match sniff(self.raw.as_slice()) {
                    Some(format) => format,
                    None => {
                        return Err(Error::UnknownFormat);
                    },
                };
                let outcome = match format {
                    SourceFormat::Avif => Err("no decoder for this container".to_string()),
                    _ => decode_image(self.raw.as_slice()),
                };
                let img = decode_outcome(format, outcome)?;
                let mut meta = ImageMetaData {
                    image: img,
                    exif: Vec::new(),
                    orientation: None,
                    format,
                    has_parsed_exif: false,
                };
                assert(pairs_map(meta.exif@) == Map::<Seq<char>, Seq<char>>::empty());
                meta.refresh(self.raw.as_slice(), with_exif);
                self.image = Some(meta);
                Ok(())
            },
        }
    }
}

} // verus!
