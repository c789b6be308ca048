//! Decoding a JPEG or PNG file to its bare samples.
use crate::error::Error;
use crate::error::SourceFormat;
use crate::png::png_frame;
use crate::png::read_png_frame;
use vstd::prelude::*;

verus! {

/// The MIME type that `infer::get` finds for the bytes, `None` where it
/// knows none.
pub uninterp spec fn inferred_mime(bytes: Seq<u8>) -> Option<Seq<char>>;

/// `infer::get`: the MIME type that the first bytes of the input tell,
/// `None` where they tell none.
#[verifier::external_body]
pub(crate) fn infer_mime(input: &[u8]) -> (out: Option<String>)
    ensures
        out is Some <==> inferred_mime(input@) is Some,
        out matches Some(mime) ==> Some(mime@) == inferred_mime(input@),
{
    infer::get(input).map(|kind| kind.mime_type().to_string())
}

/// The samples of a decoded JPEG file with its size.
pub struct JpegPixels {
    pub pixels: Vec<u8>,
    pub width: u32,
    pub height: u32,
}

/// `jpeg_decoder::Decoder::decode` and `info`: the samples of the JPEG file
/// and its size, or the decoder's message. Nothing is promised of the result.
#[verifier::external_body]
pub(crate) fn decode_jpeg_pixels(input: &[u8]) -> (out: Result<JpegPixels, String>) {
    let mut decoder = jpeg_decoder::Decoder::new(input);
    let pixels = decoder.decode().map_err(|e| e.to_string())?;
    let info = decoder.info().ok_or_else(|| "Get jpeg metadata failed".to_string())?;
    Ok(JpegPixels { pixels, width: info.width.into(), height: info.height.into() })
}

/// What `decode_input_image` gives: the samples, the width, the height, and
/// whether the samples are those of a PNG file.
pub struct DecodedInput {
    pub pixels: Vec<u8>,
    pub width: u32,
    pub height: u32,
    pub is_png: bool,
}

/// What came of decoding a JPEG file: its samples, or the failure with the
/// decoder's words.
pub fn jpeg_outcome(outcome: Result<JpegPixels, String>) -> (out: Result<DecodedInput, Error>)
    ensures
        match outcome {
            Ok(decoded) => out matches Ok(d) && d.pixels == decoded.pixels && d.width == decoded.width && d.height
                == decoded.height && !d.is_png,
            Err(detail) => out == Err::<DecodedInput, Error>(
                Error::DecodeFailed { source: SourceFormat::Jpeg, detail },
            ),
        },
{
    match outcome {
        Ok(decoded) => Ok(
            DecodedInput { pixels: decoded.pixels, width: decoded.width, height: decoded.height, is_png: false },
        ),
        Err(detail) => Err(Error::DecodeFailed { source: SourceFormat::Jpeg, detail }),
    }
}

/// `out` is what decoding the input may give: `UnknownFormat` for bytes whose
/// type is not known or is neither JPEG nor PNG; for PNG the first frame, or
/// a decode failure where the decoder reports an error; for JPEG the samples
/// or a decode failure.
pub open spec fn decodes(input: Seq<u8>, out: Result<DecodedInput, Error>) -> bool {
    match inferred_mime(input) {
        None => out == Err::<DecodedInput, Error>(Error::UnknownFormat),
        Some(mime) => if mime == "image/jpeg"@ {
            match out {
                Ok(d) => !d.is_png,
                Err(e) => e matches Error::DecodeFailed { source, .. } && source == SourceFormat::Jpeg,
            }
        } else if mime == "image/png"@ {
            match png_frame(input) {
                Some(frame) => out matches Ok(d) && d.is_png && d.pixels@ == frame.0 && d.width == frame.1 && d.height
                    == frame.2,
                None => out matches Err(Error::DecodeFailed { source, .. }) && source == SourceFormat::Png,
            }
        } else {
            out == Err::<DecodedInput, Error>(Error::UnknownFormat)
        },
    }
}

/// Decodes a JPEG or PNG file to its samples. The type of the file is told
/// by its first bytes.
///
/// Fails with `UnknownFormat` for bytes that are neither, and with
/// `DecodeFailed` where the decoder rejects them.
pub fn decode_input_image(input: &[u8]) -> (out: Result<DecodedInput, Error>)
    ensures
        decodes(input@, out),
{
    let mime = match infer_mime(input) {
        Some(mime) => mime,
        None => {
            return Err(Error::UnknownFormat);
        },
    };
    if mime == "image/jpeg".to_string() {
        jpeg_outcome(decode_jpeg_pixels(input))
    } else if mime == "image/png".to_string() {
        match read_png_frame(input) {
            Ok(frame) => Ok(
                DecodedInput { pixels: frame.pixels, width: frame.width, height: frame.height, is_png: true },
            ),
            Err(detail) => Err(Error::DecodeFailed { source: SourceFormat::Png, detail }),
        }
    } else {
        Err(Error::UnknownFormat)
    }
}

} // verus!
