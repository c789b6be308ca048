use image::DynamicImage;
use image::ImageFormat;
use image::Rgba;
use image::RgbaImage;
use image_transformer::decode::decode_input_image;
use image_transformer::encode::EncodeOutput;
use image_transformer::error::Error;
use image_transformer::error::SourceFormat;
use image_transformer::error::TargetFormat;
use image_transformer::jpeg::compress_jpeg;
use image_transformer::jpeg::compress_jpeg_sync;
use image_transformer::jpeg::JpegCompressOptions;
use image_transformer::jpeg::JpegOptimizeOutput;
use image_transformer::png::lossless_compress_png;
use image_transformer::png::lossless_compress_png_sync;
use image_transformer::png::png_quantize;
use image_transformer::png::png_quantize_sync;
use image_transformer::png::PNGLosslessOptions;
use image_transformer::png::PngQuantOptions;
use image_transformer::png::PngRowFilter;
use image_transformer::task::Progress;
use image_transformer::transformer::JsColorType;
use image_transformer::transformer::Transformer;
use resvg::usvg::fontdb::Database;
use std::io::Cursor;
use std::sync::Arc;

fn gradient(width: u32, height: u32) -> DynamicImage {
    DynamicImage::ImageRgba8(RgbaImage::from_fn(width, height, |x, y| {
        Rgba([(x * 7 % 256) as u8, (y * 5 % 256) as u8, ((x + y) * 3 % 256) as u8, 255])
    }))
}

fn file(img: &DynamicImage, format: ImageFormat) -> Vec<u8> {
    let mut out = Cursor::new(Vec::new());
    img.write_to(&mut out, format).unwrap();
    out.into_inner()
}

#[test]
fn lossless_compression_keeps_every_pixel() {
    let img = gradient(48, 32);
    let input = file(&img, ImageFormat::Png);
    let output = lossless_compress_png_sync(&input, None).unwrap();
    assert!(output.len() <= input.len());
    let back = image::load_from_memory_with_format(&output, ImageFormat::Png).unwrap();
    assert_eq!(back.to_rgba8().into_raw(), img.to_rgba8().into_raw());
}

#[test]
fn lossless_compression_takes_every_filter() {
    let img = gradient(24, 16);
    let input = file(&img, ImageFormat::Png);
    let options = PNGLosslessOptions {
        fix_errors: Some(true),
        force: Some(true),
        filter: Some(vec![
            PngRowFilter::NoFilter,
            PngRowFilter::Sub,
            PngRowFilter::Up,
            PngRowFilter::Average,
            PngRowFilter::Paeth,
            PngRowFilter::MinSum,
            PngRowFilter::Entropy,
            PngRowFilter::Bigrams,
            PngRowFilter::BigEnt,
            PngRowFilter::Brute,
            PngRowFilter::Sub,
        ]),
        bit_depth_reduction: Some(false),
        color_type_reduction: Some(false),
        palette_reduction: Some(false),
        grayscale_reduction: Some(false),
        idat_recoding: Some(true),
        strip: Some(false),
    };
    let mut task = lossless_compress_png(input.clone(), Some(options));
    let output = task.compute().unwrap();
    let output = task.resolve(output).unwrap();
    let back = image::load_from_memory_with_format(&output, ImageFormat::Png).unwrap();
    assert_eq!(back.color(), image::ColorType::Rgba8);
    assert_eq!(back.to_rgba8().into_raw(), img.to_rgba8().into_raw());
}

#[test]
fn lossless_compression_without_a_filter_to_try() {
    let img = gradient(24, 16);
    let input = file(&img, ImageFormat::Png);
    let options = PNGLosslessOptions { filter: Some(vec![]), ..PNGLosslessOptions::default() };
    match lossless_compress_png_sync(&input, Some(options)) {
        Ok(output) => {
            let back = image::load_from_memory_with_format(&output, ImageFormat::Png).unwrap();
            assert_eq!(back.to_rgba8().into_raw(), img.to_rgba8().into_raw());
        }
        Err(e) => assert!(matches!(e, Error::DecodeFailed { source: SourceFormat::Png, .. })),
    }
}

#[test]
fn lossless_compression_strips_the_headers_unless_told_otherwise() {
    // A PNG file with a text chunk in front of its end.
    let mut input = file(&gradient(8, 8), ImageFormat::Png);
    let end = input.len() - 12;
    let body = b"tEXtComment\0kept";
    let mut chunk = Vec::new();
    chunk.extend_from_slice(&((body.len() - 4) as u32).to_be_bytes());
    chunk.extend_from_slice(body);
    let mut crc = 0xffff_ffffu32;
    for byte in body.iter() {
        crc ^= u32::from(*byte);
        for _ in 0..8 {
            crc = if crc & 1 == 1 { (crc >> 1) ^ 0xedb8_8320 } else { crc >> 1 };
        }
    }
    chunk.extend_from_slice(&(!crc).to_be_bytes());
    input.splice(end..end, chunk);
    let has_text = |bytes: &[u8]| bytes.windows(4).any(|w| w == b"tEXt");
    assert!(has_text(&input));
    let stripped = lossless_compress_png_sync(&input, None).unwrap();
    assert!(!has_text(&stripped));
    let keep = PNGLosslessOptions { strip: Some(false), force: Some(true), ..PNGLosslessOptions::default() };
    let kept = lossless_compress_png_sync(&input, Some(keep)).unwrap();
    assert!(has_text(&kept));
}

#[test]
fn lossless_compression_rejects_what_is_no_png() {
    match lossless_compress_png_sync(&[1, 2, 3, 4, 5, 6, 7, 8], None) {
        Err(Error::DecodeFailed { source, detail }) => {
            assert_eq!(source, SourceFormat::Png);
            assert!(!detail.is_empty());
        }
        _ => panic!("a decode failure was expected"),
    }
}

#[test]
fn quantization_gives_a_palette_png() {
    let img = gradient(64, 64);
    let input = file(&img, ImageFormat::Png);
    // Thousands of colors do not go into a palette at the default quality.
    assert!(matches!(png_quantize_sync(&input, None), Err(Error::EncodeFailed { target: TargetFormat::Png, .. })));
    let any = PngQuantOptions { min_quality: Some(0), max_quality: None, speed: None, posterization: None };
    let output = png_quantize_sync(&input, Some(any)).unwrap();
    assert_ne!(output, input);
    let decoder = png::Decoder::new(Cursor::new(&output[..]));
    let reader = decoder.read_info().unwrap();
    assert_eq!(reader.info().color_type, png::ColorType::Indexed);
    assert!(reader.info().palette.as_ref().unwrap().len() <= 256 * 3);
    assert_eq!((reader.info().width, reader.info().height), (64, 64));
    let back = image::load_from_memory_with_format(&output, ImageFormat::Png).unwrap();
    assert_eq!((back.width(), back.height()), (64, 64));
}

#[test]
fn quantization_keeps_the_colors_of_a_small_palette() {
    let img = DynamicImage::ImageRgba8(RgbaImage::from_fn(32, 32, |x, y| {
        Rgba([(x / 8 * 80) as u8, (y / 8 * 80) as u8, 40, 255])
    }));
    let input = file(&img, ImageFormat::Png);
    let output = png_quantize_sync(&input, None).unwrap();
    let back = image::load_from_memory_with_format(&output, ImageFormat::Png).unwrap();
    assert_eq!(back.to_rgba8().into_raw(), img.to_rgba8().into_raw());
}

#[test]
fn quantization_leaves_a_file_without_alpha_as_it_is() {
    let rgb = DynamicImage::ImageRgb8(gradient(16, 16).to_rgb8());
    let input = file(&rgb, ImageFormat::Png);
    assert_eq!(png_quantize_sync(&input, None).unwrap(), input);
    let mut task = png_quantize(input.clone(), Some(PngQuantOptions::default()));
    let output = task.compute().unwrap();
    assert_eq!(task.resolve(output).unwrap(), input);
}

#[test]
fn quantization_rejects_what_is_no_png() {
    assert!(matches!(
        png_quantize_sync(&[9, 9, 9, 9], None),
        Err(Error::DecodeFailed { source: SourceFormat::Png, .. })
    ));
}

#[test]
fn quantization_rejects_settings_that_the_quantizer_does_not_take() {
    let input = file(&gradient(16, 16), ImageFormat::Png);
    let slow = PngQuantOptions { min_quality: None, max_quality: None, speed: Some(0), posterization: None };
    assert!(matches!(
        png_quantize_sync(&input, Some(slow)),
        Err(Error::EncodeFailed { target: TargetFormat::Png, .. })
    ));
    let fast = PngQuantOptions { min_quality: None, max_quality: None, speed: Some(11), posterization: None };
    assert!(png_quantize_sync(&input, Some(fast)).is_err());
    let crossed = PngQuantOptions { min_quality: Some(90), max_quality: Some(50), speed: None, posterization: None };
    assert!(png_quantize_sync(&input, Some(crossed)).is_err());
    let above = PngQuantOptions { min_quality: None, max_quality: Some(101), speed: None, posterization: None };
    assert!(png_quantize_sync(&input, Some(above)).is_err());
    let fine = PngQuantOptions { min_quality: Some(0), max_quality: Some(100), speed: Some(10), posterization: None };
    assert!(png_quantize_sync(&input, Some(fine)).is_ok());
}

#[test]
fn jpeg_compression_at_full_quality_is_left_to_the_transcoder() {
    let input = file(&DynamicImage::ImageRgb8(gradient(32, 32).to_rgb8()), ImageFormat::Jpeg);
    match compress_jpeg_sync(&input, None) {
        Ok(JpegOptimizeOutput::Lossless(job)) => {
            assert_eq!(job.input, input);
            assert!(job.optimize_scans);
        }
        _ => panic!("a lossless job was expected"),
    }
    let options = JpegCompressOptions { quality: Some(100), optimize_scans: Some(false) };
    match compress_jpeg(input.clone(), Some(options)).compute() {
        Ok(JpegOptimizeOutput::Lossless(job)) => {
            assert_eq!(job.input, input);
            assert!(!job.optimize_scans);
        }
        _ => panic!("a lossless job was expected"),
    }
    // Whether the bytes are a JPEG file is for the transcoder to find out.
    assert!(matches!(compress_jpeg_sync(&[1, 2, 3], None), Ok(JpegOptimizeOutput::Lossless(_))));
}

#[test]
fn jpeg_compression_at_a_lower_quality_encodes_anew() {
    let img = DynamicImage::ImageRgb8(gradient(64, 64).to_rgb8());
    let mut input = Cursor::new(Vec::new());
    image::codecs::jpeg::JpegEncoder::new_with_quality(&mut input, 95).encode_image(&img).unwrap();
    let input = input.into_inner();
    let options = JpegCompressOptions { quality: Some(30), optimize_scans: None };
    match compress_jpeg_sync(&input, Some(options)) {
        Ok(JpegOptimizeOutput::Lossy(output)) => {
            assert!(output.len() < input.len());
            let back = image::load_from_memory_with_format(&output, ImageFormat::Jpeg).unwrap();
            assert_eq!((back.width(), back.height()), (64, 64));
        }
        _ => panic!("a new encode was expected"),
    }
    assert!(matches!(
        compress_jpeg_sync(&[1, 2, 3], Some(options)),
        Err(Error::DecodeFailed { source: SourceFormat::Jpeg, .. })
    ));
}

#[test]
fn decode_input_image_reads_jpeg_and_png() {
    let img = gradient(10, 6);
    let jpeg = file(&DynamicImage::ImageRgb8(img.to_rgb8()), ImageFormat::Jpeg);
    let decoded = decode_input_image(&jpeg).unwrap();
    assert_eq!((decoded.width, decoded.height, decoded.is_png), (10, 6, false));
    assert_eq!(decoded.pixels.len(), 10 * 6 * 3);
    let png = file(&img, ImageFormat::Png);
    let decoded = decode_input_image(&png).unwrap();
    assert_eq!((decoded.width, decoded.height, decoded.is_png), (10, 6, true));
    assert_eq!(decoded.pixels, img.as_bytes().to_vec());
}

#[test]
fn decode_input_image_rejects_everything_else() {
    let gif = file(&gradient(4, 4), ImageFormat::Gif);
    assert_eq!(decode_input_image(&gif).err(), Some(Error::UnknownFormat));
    assert_eq!(decode_input_image(&[0, 1, 2, 3]).err(), Some(Error::UnknownFormat));
    let mut broken = file(&gradient(16, 16), ImageFormat::Png);
    broken.truncate(50);
    assert!(matches!(decode_input_image(&broken), Err(Error::DecodeFailed { source: SourceFormat::Png, .. })));
    let mut broken = file(&DynamicImage::ImageRgb8(gradient(16, 16).to_rgb8()), ImageFormat::Jpeg);
    broken.truncate(50);
    assert!(matches!(decode_input_image(&broken), Err(Error::DecodeFailed { source: SourceFormat::Jpeg, .. })));
}

const DRAWING: &str = "<svg xmlns=\"http://www.w3.org/2000/svg\" width=\"10\" height=\"20\">\
<rect width=\"10\" height=\"20\" fill=\"#0000ff\"/></svg>";

#[test]
fn an_svg_is_rasterized_on_a_canvas_of_a_thousand_pixels_at_least() {
    let fonts = Arc::new(Database::new());
    let mut t = Transformer::from_svg(DRAWING.as_bytes(), None, &fonts).unwrap();
    let data = t.metadata_sync(Some(true)).unwrap();
    assert_eq!((data.width, data.height), (1280, 2560));
    assert_eq!(data.color_type, JsColorType::Rgba8);
    assert_eq!(data.format, "png");
    assert!(data.exif.is_none());
    let pixels = match t.raw_pixels_sync() {
        Ok(Progress::Done(EncodeOutput::Buffer(pixels))) => pixels,
        _ => panic!("the raw pixels were expected"),
    };
    assert_eq!(pixels.len(), 1280 * 2560 * 4);
    // The drawing is painted in its own size in the upper left corner.
    assert_eq!(&pixels[0..4], &[0, 0, 255, 255]);
    let outside = (30 * 1280 + 30) * 4;
    assert_eq!(&pixels[outside..outside + 4], &[0, 0, 0, 0]);
}

#[test]
fn an_svg_is_painted_over_its_background() {
    let fonts = Arc::new(Database::new());
    let mut t = Transformer::from_svg(DRAWING.as_bytes(), Some("rgb(255, 0, 0)".to_string()), &fonts).unwrap();
    let pixels = match t.raw_pixels_sync() {
        Ok(Progress::Done(EncodeOutput::Buffer(pixels))) => pixels,
        _ => panic!("the raw pixels were expected"),
    };
    assert_eq!(&pixels[0..4], &[0, 0, 255, 255]);
    let outside = (30 * 1280 + 30) * 4;
    assert_eq!(&pixels[outside..outside + 4], &[255, 0, 0, 255]);
}

#[test]
fn an_svg_or_a_background_that_cannot_be_read_is_a_decode_failure() {
    let fonts = Arc::new(Database::new());
    assert!(matches!(
        Transformer::from_svg(b"<svg", None, &fonts),
        Err(Error::DecodeFailed { source: SourceFormat::Svg, .. })
    ));
    assert!(matches!(
        Transformer::from_svg(DRAWING.as_bytes(), Some("no color".to_string()), &fonts),
        Err(Error::DecodeFailed { source: SourceFormat::Svg, .. })
    ));
}
