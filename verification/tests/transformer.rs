use image::DynamicImage;
use image::ImageEncoder;
use image::ImageFormat;
use image::Rgba;
use image::RgbaImage;
use image_transformer::encode::EncodeOutput;
use image_transformer::error::Error;
use image_transformer::error::SourceFormat;
use image_transformer::error::TargetFormat;
use image_transformer::fast_resize::FastResizeOptions;
use image_transformer::fast_resize::ResizeFit;
use image_transformer::orientation::Orientation;
use image_transformer::queue::AvifPixels;
use image_transformer::queue::FilterRequest;
use image_transformer::task::Progress;
use image_transformer::transformer::JsColorType;
use image_transformer::transformer::Transformer;
use image_transformer::transformer::WidthOrOptions;
use std::io::Cursor;

/// A picture whose left half is red and whose right half is blue.
fn two_halves(width: u32, height: u32) -> DynamicImage {
    DynamicImage::ImageRgba8(RgbaImage::from_fn(width, height, |x, _| {
        if x < width / 2 {
            Rgba([255, 0, 0, 255])
        } else {
            Rgba([0, 0, 255, 255])
        }
    }))
}

fn encoded(img: &DynamicImage, format: ImageFormat) -> Vec<u8> {
    let mut out = Cursor::new(Vec::new());
    img.write_to(&mut out, format).unwrap();
    out.into_inner()
}

/// The bytes of a little-endian EXIF block that holds the orientation only.
fn exif_with_orientation(value: u8) -> Vec<u8> {
    vec![
        0x49, 0x49, 0x2a, 0x00, 0x08, 0x00, 0x00, 0x00, 0x01, 0x00, 0x12, 0x01, 0x03, 0x00, 0x01, 0x00, 0x00,
        0x00, value, 0x00, 0x00, 0x00, 0x00, 0x00, 0x00, 0x00,
    ]
}

fn jpeg_with_orientation(img: &DynamicImage, value: u8) -> Vec<u8> {
    let mut out = Cursor::new(Vec::new());
    let mut encoder = image::codecs::jpeg::JpegEncoder::new_with_quality(&mut out, 90);
    encoder.set_exif_metadata(exif_with_orientation(value)).unwrap();
    let rgb = img.to_rgb8();
    encoder.write_image(rgb.as_raw(), rgb.width(), rgb.height(), image::ExtendedColorType::Rgb8).unwrap();
    out.into_inner()
}

fn apply(image: DynamicImage, request: FilterRequest) -> DynamicImage {
    match request {
        FilterRequest::Contrast(c) => image.adjust_contrast(f64::from_bits(c) as f32),
        FilterRequest::Blur(s) => image.blur(f64::from_bits(s) as f32),
        FilterRequest::Unsharpen(s, t) => image.unsharpen(f64::from_bits(s) as f32, t),
        FilterRequest::Filter3x3(k) => {
            let kernel: Vec<f32> = k.iter().map(|c| f64::from_bits(*c) as f32).collect();
            image.filter3x3(&kernel)
        }
    }
}

/// Runs an encode to its end, applying the filters that it asks for.
fn finish(t: &mut Transformer, first: Result<Progress, Error>) -> Result<EncodeOutput, Error> {
    let mut progress = first?;
    loop {
        match progress {
            Progress::Done(output) => return Ok(output),
            Progress::Pending { task, image, request } => {
                progress = t.resume(task, apply(image, request))?;
            }
        }
    }
}

fn buffer(output: Result<EncodeOutput, Error>) -> Vec<u8> {
    match output {
        Ok(EncodeOutput::Buffer(bytes)) => bytes,
        Ok(_) => panic!("a buffer was expected"),
        Err(e) => panic!("the encode failed: {:?}", e),
    }
}

fn raw(t: &mut Transformer) -> Vec<u8> {
    let first = t.raw_pixels_sync();
    buffer(finish(t, first))
}

fn png_of(t: &mut Transformer) -> DynamicImage {
    let first = t.png_sync(None);
    let bytes = buffer(finish(t, first));
    image::load_from_memory_with_format(&bytes, ImageFormat::Png).unwrap()
}

#[test]
fn metadata_reports_the_size_of_each_format() {
    let img = two_halves(12, 7);
    let cases = [
        (ImageFormat::Png, "png"),
        (ImageFormat::Jpeg, "jpeg"),
        (ImageFormat::Bmp, "bmp"),
        (ImageFormat::Gif, "gif"),
        (ImageFormat::Tiff, "tiff"),
        (ImageFormat::WebP, "webp"),
        (ImageFormat::Ico, "ico"),
        (ImageFormat::Pnm, "pnm"),
        (ImageFormat::Farbfeld, "farbfeld"),
        (ImageFormat::Qoi, "qoi"),
    ];
    for (format, name) in cases {
        let source = if format == ImageFormat::Jpeg {
            DynamicImage::ImageRgb8(img.to_rgb8())
        } else if format == ImageFormat::Farbfeld {
            DynamicImage::ImageRgba16(img.to_rgba16())
        } else {
            img.clone()
        };
        let mut t = Transformer::new(encoded(&source, format));
        let data = t.metadata_sync(None).unwrap();
        assert_eq!((data.width, data.height), (12, 7), "{}", name);
        assert_eq!(data.format, name);
        assert!(data.exif.is_none());
        assert!(data.orientation.is_none());
    }
}

#[test]
fn a_container_without_a_decoder_is_named_in_the_failure() {
    let mut dds = b"DDS ".to_vec();
    dds.extend_from_slice(&[0; 128]);
    let mut t = Transformer::new(dds);
    assert!(matches!(t.metadata_sync(None), Err(Error::DecodeFailed { source: SourceFormat::Dds, .. })));
    let mut exr = vec![0x76, 0x2f, 0x31, 0x01];
    exr.extend_from_slice(&[0; 64]);
    let mut t = Transformer::new(exr);
    assert!(matches!(t.metadata_sync(None), Err(Error::DecodeFailed { source: SourceFormat::OpenExr, .. })));
}

#[test]
fn metadata_reports_the_color_layout() {
    let mut t = Transformer::new(encoded(&two_halves(4, 4), ImageFormat::Png));
    assert_eq!(t.metadata_sync(None).unwrap().color_type, JsColorType::Rgba8);
    let gray = DynamicImage::ImageLuma8(two_halves(4, 4).to_luma8());
    let mut t = Transformer::new(encoded(&gray, ImageFormat::Png));
    assert_eq!(t.metadata_sync(None).unwrap().color_type, JsColorType::L8);
    let deep = DynamicImage::ImageRgb16(two_halves(4, 4).to_rgb16());
    let mut t = Transformer::new(encoded(&deep, ImageFormat::Png));
    assert_eq!(t.metadata_sync(None).unwrap().color_type, JsColorType::Rgb16);
}

#[test]
fn metadata_with_exif_reports_the_orientation() {
    let mut t = Transformer::new(jpeg_with_orientation(&two_halves(20, 10), 6));
    let data = t.metadata_sync(Some(true)).unwrap();
    assert_eq!(data.orientation, Some(6));
    assert_eq!((data.width, data.height), (20, 10));
    let tags = data.exif.unwrap();
    assert!(tags.iter().any(|pair| pair.name == "Orientation"));
}

#[test]
fn exif_is_parsed_when_it_is_first_asked_for() {
    let mut t = Transformer::new(jpeg_with_orientation(&two_halves(20, 10), 6));
    let plain = t.metadata_sync(None).unwrap();
    assert_eq!(plain.orientation, None);
    assert!(plain.exif.is_none());
    let later = t.metadata_sync(Some(true)).unwrap();
    assert_eq!(later.orientation, Some(6));
    let again = t.metadata_sync(Some(false)).unwrap();
    assert_eq!(again.orientation, Some(6));
}

#[test]
fn formats_without_exif_have_none() {
    let mut t = Transformer::new(encoded(&two_halves(4, 4), ImageFormat::Png));
    let data = t.metadata_sync(Some(true)).unwrap();
    assert!(data.exif.is_none());
    assert_eq!(data.orientation, None);
}

#[test]
fn a_decoded_image_is_not_decoded_again() {
    // The bytes behind raw pixels are no image at all: had a lookup decoded
    // them, it would have failed.
    let pixels = two_halves(3, 2).into_bytes();
    let mut t = Transformer::from_rgba_pixels(pixels.clone(), 3, 2).unwrap();
    let first = t.metadata_sync(None).unwrap();
    let second = t.metadata_sync(Some(true)).unwrap();
    assert_eq!((first.width, first.height), (3, 2));
    assert_eq!((second.width, second.height), (3, 2));
    assert_eq!(second.format, "png");
    assert_eq!(raw(&mut t), pixels);
    assert_eq!(raw(&mut t), pixels);
}

#[test]
fn from_rgba_pixels_needs_enough_bytes() {
    assert!(matches!(Transformer::from_rgba_pixels(vec![0; 23], 3, 2), Err(Error::InvalidDimensions)));
    assert!(Transformer::from_rgba_pixels(vec![0; 24], 3, 2).is_ok());
}

#[test]
fn unknown_bytes_are_an_unknown_format() {
    let mut t = Transformer::new(vec![1, 2, 3, 4, 5, 6, 7, 8, 9, 10, 11, 12]);
    assert_eq!(t.metadata_sync(None).err(), Some(Error::UnknownFormat));
    assert!(matches!(t.raw_pixels_sync(), Err(Error::UnknownFormat)));
    assert!(matches!(t.png_sync(None), Err(Error::UnknownFormat)));
}

#[test]
fn a_broken_file_fails_to_decode() {
    let mut bytes = encoded(&two_halves(16, 16), ImageFormat::Png);
    bytes.truncate(40);
    let mut t = Transformer::new(bytes);
    match t.metadata_sync(None) {
        Err(Error::DecodeFailed { source, detail }) => {
            assert_eq!(source, SourceFormat::Png);
            assert!(!detail.is_empty());
        }
        _ => panic!("a decode failure was expected"),
    }
}

#[test]
fn an_avif_file_waits_for_its_decoder() {
    let mut bytes = vec![0, 0, 0, 0x1c];
    bytes.extend_from_slice(b"ftypavif");
    bytes.extend_from_slice(&[0; 16]);
    let mut t = Transformer::new(bytes);
    assert!(matches!(t.metadata_sync(None), Err(Error::DecodeFailed { source: SourceFormat::Avif, .. })));
}

#[test]
fn resize_inside_keeps_the_aspect_ratio_within_the_box() {
    let mut t = Transformer::new(encoded(&two_halves(200, 100), ImageFormat::Png));
    t.resize(WidthOrOptions::Width(100), Some(100), None, Some(ResizeFit::Inside));
    let out = png_of(&mut t);
    assert_eq!((out.width(), out.height()), (100, 50));
}

#[test]
fn resize_fill_stretches_to_the_box() {
    let mut t = Transformer::new(encoded(&two_halves(200, 100), ImageFormat::Png));
    t.resize(WidthOrOptions::Width(100), Some(100), None, Some(ResizeFit::Fill));
    let out = png_of(&mut t);
    assert_eq!((out.width(), out.height()), (100, 100));
}

#[test]
fn resize_cover_crops_and_does_not_letterbox() {
    let mut t = Transformer::new(encoded(&two_halves(200, 100), ImageFormat::Png));
    t.resize(WidthOrOptions::Width(50), Some(50), None, None);
    let out = png_of(&mut t).to_rgba8();
    assert_eq!((out.width(), out.height()), (50, 50));
    // Every row is filled from edge to edge: red on the left, blue on the
    // right, and no bar above or below.
    for y in [0u32, 25, 49] {
        assert_eq!(out.get_pixel(2, y), &Rgba([255, 0, 0, 255]));
        assert_eq!(out.get_pixel(47, y), &Rgba([0, 0, 255, 255]));
    }
}

#[test]
fn a_resize_gives_the_size_that_its_fit_promises() {
    let sides = [0u32, 1, 2, 3, 5, 8, 13];
    for &w in &sides[1..] {
        for &h in &sides[1..] {
            let source = encoded(&two_halves(w, h), ImageFormat::Png);
            for &nw in &sides {
                for &nh in &sides {
                    for fit in [ResizeFit::Cover, ResizeFit::Fill, ResizeFit::Inside] {
                        let mut t = Transformer::new(source.clone());
                        t.resize(WidthOrOptions::Width(nw), Some(nh), None, Some(fit));
                        let task = t.raw_pixels();
                        let first = t.start(task);
                        let bytes = buffer(finish(&mut t, first));
                        let expected = match fit {
                            ResizeFit::Inside => image_transformer::utils::resize_dimensions(w, h, nw, nh, false),
                            _ => (nw, nh),
                        };
                        assert_eq!(bytes.len() as u32, expected.0 * expected.1 * 4, "{w}x{h} to {nw}x{nh} by {fit:?}");
                        if expected.0 > 0 && expected.1 > 0 {
                            let out = png_of(&mut t);
                            assert_eq!((out.width(), out.height()), expected, "{w}x{h} to {nw}x{nh} by {fit:?}");
                        }
                        if fit == ResizeFit::Inside {
                            assert!(expected.0 <= nw.max(1) && expected.1 <= nh.max(1));
                            assert!(expected.0 >= 1 && expected.1 >= 1);
                        }
                        // The session keeps the image that was decoded.
                        let data = t.metadata_sync(None).unwrap();
                        assert_eq!((data.width, data.height), (w, h));
                    }
                }
            }
        }
    }
}

#[test]
fn a_fast_resize_gives_the_size_that_its_fit_promises() {
    let sides = [1u32, 2, 3, 5, 8, 13];
    for &w in &sides {
        for &h in &sides {
            let source = encoded(&two_halves(w, h), ImageFormat::Png);
            for &nw in &sides {
                for &nh in &sides {
                    for fit in [ResizeFit::Cover, ResizeFit::Fill, ResizeFit::Inside] {
                        let mut t = Transformer::new(source.clone());
                        t.fast_resize(FastResizeOptions { width: nw, height: Some(nh), filter: None, fit: Some(fit) });
                        let task = t.raw_pixels();
                        let first = t.start(task);
                        let bytes = buffer(finish(&mut t, first));
                        let expected = match fit {
                            ResizeFit::Inside => image_transformer::utils::resize_dimensions(w, h, nw, nh, false),
                            _ => (nw, nh),
                        };
                        assert_eq!(bytes.len() as u32, expected.0 * expected.1 * 4, "{w}x{h} to {nw}x{nh} by {fit:?}");
                        let out = png_of(&mut t);
                        assert_eq!((out.width(), out.height()), expected, "{w}x{h} to {nw}x{nh} by {fit:?}");
                    }
                }
            }
        }
    }
}

#[test]
fn resize_without_a_height_keeps_the_aspect_ratio() {
    let mut t = Transformer::new(encoded(&two_halves(200, 100), ImageFormat::Png));
    t.resize(WidthOrOptions::Width(50), None, None, Some(ResizeFit::Fill));
    let out = png_of(&mut t);
    assert_eq!((out.width(), out.height()), (50, 25));
}

#[test]
fn fast_resize_follows_the_fit() {
    for (fit, expected) in
        [(ResizeFit::Inside, (100, 50)), (ResizeFit::Fill, (100, 100)), (ResizeFit::Cover, (100, 100))]
    {
        let mut t = Transformer::new(encoded(&two_halves(200, 100), ImageFormat::Png));
        t.fast_resize(FastResizeOptions { width: 100, height: Some(100), filter: None, fit: Some(fit) });
        let out = png_of(&mut t);
        assert_eq!((out.width(), out.height()), expected);
    }
}

#[test]
fn fast_resize_to_nothing_is_refused() {
    let mut t = Transformer::new(encoded(&two_halves(200, 100), ImageFormat::Png));
    t.fast_resize(FastResizeOptions { width: 0, height: Some(10), filter: None, fit: Some(ResizeFit::Fill) });
    assert!(matches!(t.png_sync(None), Err(Error::InvalidDimensions)));
    let mut t = Transformer::new(encoded(&two_halves(200, 1), ImageFormat::Png));
    t.fast_resize(FastResizeOptions { width: 10, height: None, filter: None, fit: None });
    assert!(matches!(t.png_sync(None), Err(Error::InvalidDimensions)));
}

#[test]
fn filter3x3_takes_nine_coefficients() {
    let mut t = Transformer::new(encoded(&two_halves(8, 8), ImageFormat::Png));
    let eight: Vec<u64> = [0.0f64; 8].iter().map(|c| c.to_bits()).collect();
    assert!(matches!(t.filter3x3(eight), Err(Error::InvalidKernelSize)));
    let identity: Vec<u64> = [0.0f64, 0.0, 0.0, 0.0, 1.0, 0.0, 0.0, 0.0, 0.0].iter().map(|c| c.to_bits()).collect();
    assert!(t.filter3x3(identity).is_ok());
    let ten: Vec<u64> = [0.0f64; 10].iter().map(|c| c.to_bits()).collect();
    assert!(matches!(t.filter3x3(ten), Err(Error::InvalidKernelSize)));
    // The refused kernels left the accepted one in place.
    let out = png_of(&mut t).to_rgba8();
    assert_eq!(out.get_pixel(1, 1), &Rgba([255, 0, 0, 255]));
    assert_eq!(out.get_pixel(6, 6), &Rgba([0, 0, 255, 255]));
}

#[test]
fn a_crop_beyond_the_image_fails_and_leaves_the_image() {
    let mut t = Transformer::new(encoded(&two_halves(20, 10), ImageFormat::Png));
    let before = raw(&mut t);
    t.grayscale();
    t.crop(15, 0, 10, 10);
    assert!(matches!(t.png_sync(None), Err(Error::CropOutOfBounds)));
    assert!(matches!(t.raw_pixels_sync(), Err(Error::CropOutOfBounds)));
    t.crop(0, 5, 20, 6);
    assert!(matches!(t.png_sync(None), Err(Error::CropOutOfBounds)));
    let data = t.metadata_sync(None).unwrap();
    assert_eq!((data.width, data.height), (20, 10));
    // The decoded image is as it was: a crop within it works on all of it.
    t.crop(0, 0, 20, 10);
    let gray = image::load_from_memory(t.input()).unwrap().grayscale();
    assert_eq!(raw(&mut t), gray.as_bytes().to_vec());
    assert_eq!(before.len(), 20 * 10 * 4);
}

#[test]
fn a_crop_within_the_image_cuts_it_out() {
    let mut t = Transformer::new(encoded(&two_halves(20, 10), ImageFormat::Png));
    t.crop(8, 2, 4, 3);
    let out = png_of(&mut t).to_rgba8();
    assert_eq!((out.width(), out.height()), (4, 3));
    assert_eq!(out.get_pixel(1, 0), &Rgba([255, 0, 0, 255]));
    assert_eq!(out.get_pixel(2, 0), &Rgba([0, 0, 255, 255]));
    // The whole image is within bounds too.
    let mut t = Transformer::new(encoded(&two_halves(20, 10), ImageFormat::Png));
    t.crop(0, 0, 20, 10);
    let out = png_of(&mut t);
    assert_eq!((out.width(), out.height()), (20, 10));
}

#[test]
fn an_overlay_is_composited_pixel_by_pixel() {
    let white = DynamicImage::ImageRgba8(RgbaImage::from_pixel(20, 20, Rgba([255, 255, 255, 255])));
    let red = DynamicImage::ImageRgba8(RgbaImage::from_pixel(10, 10, Rgba([255, 0, 0, 255])));
    let mut t = Transformer::new(encoded(&white, ImageFormat::Png));
    assert!(t.overlay(encoded(&red, ImageFormat::Png), 5, 5).is_ok());
    let out = png_of(&mut t).to_rgba8();
    assert_eq!((out.width(), out.height()), (20, 20));
    for y in 0..20u32 {
        for x in 0..20u32 {
            let inside = (5..15).contains(&x) && (5..15).contains(&y);
            let expected = if inside { Rgba([255, 0, 0, 255]) } else { Rgba([255, 255, 255, 255]) };
            assert_eq!(out.get_pixel(x, y), &expected, "at ({}, {})", x, y);
        }
    }
}

#[test]
fn an_overlay_that_hangs_over_the_edge_is_cut_there() {
    let white = DynamicImage::ImageRgba8(RgbaImage::from_pixel(6, 6, Rgba([255, 255, 255, 255])));
    // Every pixel of the upper image tells its own place.
    let top = RgbaImage::from_fn(4, 4, |x, y| Rgba([x as u8, y as u8, 7, 255]));
    for (x, y) in [(-2i64, -1i64), (4, 5), (0, 0), (6, 6), (-4, 0), (i64::MIN, 0), (i64::MAX, i64::MAX)] {
        let mut t = Transformer::new(encoded(&white, ImageFormat::Png));
        t.overlay(encoded(&DynamicImage::ImageRgba8(top.clone()), ImageFormat::Png), x, y).unwrap();
        let out = png_of(&mut t).to_rgba8();
        for py in 0..6i64 {
            for px in 0..6i64 {
                let under = i128::from(x) <= i128::from(px)
                    && i128::from(px) < i128::from(x) + 4
                    && i128::from(y) <= i128::from(py)
                    && i128::from(py) < i128::from(y) + 4;
                let expected = if under {
                    *top.get_pixel((px - x) as u32, (py - y) as u32)
                } else {
                    Rgba([255, 255, 255, 255])
                };
                assert_eq!(out.get_pixel(px as u32, py as u32), &expected, "({}, {}) at ({}, {})", x, y, px, py);
            }
        }
    }
}

#[test]
fn a_transparent_overlay_changes_nothing() {
    let img = two_halves(6, 6);
    let clear = DynamicImage::ImageRgba8(RgbaImage::from_pixel(3, 3, Rgba([9, 9, 9, 0])));
    let mut t = Transformer::new(encoded(&img, ImageFormat::Png));
    t.overlay(encoded(&clear, ImageFormat::Png), 2, 2).unwrap();
    assert_eq!(png_of(&mut t).to_rgba8().into_raw(), img.to_rgba8().into_raw());
}

#[test]
fn an_overlay_in_avif_is_made_of_its_samples() {
    let mut avif = vec![0, 0, 0, 0x1c];
    avif.extend_from_slice(b"ftypavif");
    avif.extend_from_slice(&[0; 16]);
    let white = DynamicImage::ImageRgba8(RgbaImage::from_pixel(4, 4, Rgba([255, 255, 255, 255])));
    let mut t = Transformer::new(encoded(&white, ImageFormat::Png));
    let green = AvifPixels { width: 2, height: 2, samples: vec![0, 255, 0, 0, 255, 0, 0, 255, 0, 0, 255, 0] };
    assert!(t.overlay_avif(avif.clone(), green, 1, 1).is_ok());
    let out = png_of(&mut t).to_rgba8();
    assert_eq!(out.get_pixel(0, 0), &Rgba([255, 255, 255, 255]));
    assert_eq!(out.get_pixel(1, 1), &Rgba([0, 255, 0, 255]));
    assert_eq!(out.get_pixel(2, 2), &Rgba([0, 255, 0, 255]));
    assert_eq!(out.get_pixel(3, 3), &Rgba([255, 255, 255, 255]));
    // Without samples, and with too few of them, there is nothing to lay over.
    let mut t = Transformer::new(encoded(&white, ImageFormat::Png));
    t.overlay(avif.clone(), 0, 0).unwrap();
    assert!(matches!(t.png_sync(None), Err(Error::DecodeFailed { source: SourceFormat::Avif, .. })));
    let mut t = Transformer::new(encoded(&white, ImageFormat::Png));
    let short = AvifPixels { width: 2, height: 2, samples: vec![0; 3] };
    t.overlay_avif(avif, short, 0, 0).unwrap();
    assert!(matches!(t.png_sync(None), Err(Error::DecodeFailed { source: SourceFormat::Avif, .. })));
    // Samples that come with another container are not looked at.
    let red = DynamicImage::ImageRgba8(RgbaImage::from_pixel(2, 2, Rgba([255, 0, 0, 255])));
    let mut t = Transformer::new(encoded(&white, ImageFormat::Png));
    let stray = AvifPixels { width: 1, height: 1, samples: vec![0; 3] };
    t.overlay_avif(encoded(&red, ImageFormat::Png), stray, 0, 0).unwrap();
    assert_eq!(png_of(&mut t).to_rgba8().get_pixel(1, 1), &Rgba([255, 0, 0, 255]));
}

#[test]
fn overlays_are_laid_over_in_the_order_of_the_calls() {
    let white = DynamicImage::ImageRgba8(RgbaImage::from_pixel(8, 8, Rgba([255, 255, 255, 255])));
    let red = DynamicImage::ImageRgba8(RgbaImage::from_pixel(4, 4, Rgba([255, 0, 0, 255])));
    let blue = DynamicImage::ImageRgba8(RgbaImage::from_pixel(4, 4, Rgba([0, 0, 255, 255])));
    let mut t = Transformer::new(encoded(&white, ImageFormat::Png));
    t.overlay(encoded(&red, ImageFormat::Png), 0, 0).unwrap();
    t.overlay(encoded(&blue, ImageFormat::Png), 2, 2).unwrap();
    let out = png_of(&mut t).to_rgba8();
    assert_eq!(out.get_pixel(1, 1), &Rgba([255, 0, 0, 255]));
    assert_eq!(out.get_pixel(3, 3), &Rgba([0, 0, 255, 255]));
    assert_eq!(out.get_pixel(5, 5), &Rgba([0, 0, 255, 255]));
    assert_eq!(out.get_pixel(7, 7), &Rgba([255, 255, 255, 255]));
}

#[test]
fn an_overlay_that_is_no_image_fails_the_encode() {
    let white = DynamicImage::ImageRgba8(RgbaImage::from_pixel(8, 8, Rgba([255, 255, 255, 255])));
    let mut t = Transformer::new(encoded(&white, ImageFormat::Png));
    assert_eq!(raw(&mut t), vec![255; 8 * 8 * 4]);
    t.invert();
    t.overlay(vec![9; 32], 0, 0).unwrap();
    assert!(matches!(t.png_sync(None), Err(Error::UnknownFormat)));
    assert!(matches!(t.raw_pixels_sync(), Err(Error::UnknownFormat)));
    let data = t.metadata_sync(None).unwrap();
    assert_eq!((data.width, data.height), (8, 8));
}

#[test]
fn rotate_follows_the_exif_orientation() {
    let mut t = Transformer::new(jpeg_with_orientation(&two_halves(20, 10), 6));
    t.rotate(None);
    let out = png_of(&mut t);
    assert_eq!((out.width(), out.height()), (10, 20));
    // A quarter turn clockwise brings the left half of the picture to the top.
    let rgb = out.to_rgb8();
    assert!(rgb.get_pixel(5, 2).0[0] > 200 && rgb.get_pixel(5, 2).0[2] < 60);
    assert!(rgb.get_pixel(5, 17).0[2] > 200 && rgb.get_pixel(5, 17).0[0] < 60);
}

#[test]
fn an_orientation_override_counts_before_exif() {
    let mut t = Transformer::new(jpeg_with_orientation(&two_halves(20, 10), 6));
    t.rotate(Some(Orientation::Rotate180));
    let out = png_of(&mut t);
    assert_eq!((out.width(), out.height()), (20, 10));
    let rgb = out.to_rgb8();
    assert!(rgb.get_pixel(2, 5).0[2] > 200 && rgb.get_pixel(2, 5).0[0] < 60);
    assert!(rgb.get_pixel(17, 5).0[0] > 200 && rgb.get_pixel(17, 5).0[2] < 60);
}

#[test]
fn an_orientation_override_hides_an_invalid_exif_orientation() {
    let mut t = Transformer::new(jpeg_with_orientation(&two_halves(20, 10), 9));
    t.rotate(None);
    assert!(matches!(t.png_sync(None), Err(Error::InvalidOrientation)));
    t.rotate(Some(Orientation::MirrorHorizontal));
    let out = png_of(&mut t);
    assert_eq!((out.width(), out.height()), (20, 10));
}

#[test]
fn without_rotate_the_orientation_is_left_alone() {
    let mut t = Transformer::new(jpeg_with_orientation(&two_halves(20, 10), 9));
    let out = png_of(&mut t);
    assert_eq!((out.width(), out.height()), (20, 10));
}

#[test]
fn every_orientation_has_its_transform() {
    let cases = [
        (Orientation::Horizontal, (20, 10)),
        (Orientation::MirrorHorizontal, (20, 10)),
        (Orientation::Rotate180, (20, 10)),
        (Orientation::MirrorVertical, (20, 10)),
        (Orientation::MirrorHorizontalAndRotate270Cw, (10, 20)),
        (Orientation::Rotate90Cw, (10, 20)),
        (Orientation::MirrorHorizontalAndRotate90Cw, (10, 20)),
        (Orientation::Rotate270Cw, (10, 20)),
    ];
    for (orientation, size) in cases {
        let mut t = Transformer::new(encoded(&two_halves(20, 10), ImageFormat::Png));
        t.rotate(Some(orientation));
        let out = png_of(&mut t);
        assert_eq!((out.width(), out.height()), size);
    }
    // Where red ends up tells the transforms apart.
    let red_at = |orientation: Orientation, x: u32, y: u32| {
        let mut t = Transformer::new(encoded(&two_halves(20, 10), ImageFormat::Png));
        t.rotate(Some(orientation));
        png_of(&mut t).to_rgba8().get_pixel(x, y) == &Rgba([255, 0, 0, 255])
    };
    assert!(red_at(Orientation::Horizontal, 2, 5));
    assert!(red_at(Orientation::MirrorHorizontal, 17, 5));
    assert!(red_at(Orientation::Rotate180, 17, 5));
    assert!(red_at(Orientation::MirrorVertical, 2, 5));
    assert!(red_at(Orientation::Rotate90Cw, 5, 2));
    assert!(red_at(Orientation::Rotate270Cw, 5, 17));
    assert!(red_at(Orientation::MirrorHorizontalAndRotate90Cw, 5, 17));
    assert!(red_at(Orientation::MirrorHorizontalAndRotate270Cw, 5, 2));
}

#[test]
fn an_orientation_moves_every_pixel_to_its_place() {
    // Six pixels that all differ, in three columns and two rows.
    let (w, h) = (3u32, 2u32);
    let source = RgbaImage::from_fn(w, h, |x, y| Rgba([(10 * x + y) as u8, x as u8, y as u8, 255]));
    let from = |orientation: Orientation, x: u32, y: u32| -> (u32, u32) {
        match orientation {
            Orientation::Horizontal => (x, y),
            Orientation::MirrorHorizontal => (w - 1 - x, y),
            Orientation::Rotate180 => (w - 1 - x, h - 1 - y),
            Orientation::MirrorVertical => (x, h - 1 - y),
            // The mirror of the quarter turn, and the quarter turns.
            Orientation::MirrorHorizontalAndRotate270Cw => (y, x),
            Orientation::Rotate90Cw => (y, h - 1 - x),
            Orientation::MirrorHorizontalAndRotate90Cw => (w - 1 - y, h - 1 - x),
            Orientation::Rotate270Cw => (w - 1 - y, x),
        }
    };
    for code in 1..=8u16 {
        let orientation = Orientation::try_from(code).unwrap();
        let mut t = Transformer::new(encoded(&DynamicImage::ImageRgba8(source.clone()), ImageFormat::Png));
        t.rotate(Some(orientation));
        let out = png_of(&mut t).to_rgba8();
        let sideways = code >= 5;
        assert_eq!((out.width(), out.height()), if sideways { (h, w) } else { (w, h) });
        for y in 0..out.height() {
            for x in 0..out.width() {
                let (sx, sy) = from(orientation, x, y);
                assert_eq!(out.get_pixel(x, y), source.get_pixel(sx, sy), "{:?} at ({}, {})", orientation, x, y);
            }
        }
    }
}

#[test]
fn a_crop_moves_every_pixel_to_its_place() {
    let source = RgbaImage::from_fn(5, 4, |x, y| Rgba([(10 * x + y) as u8, x as u8, y as u8, 255]));
    let mut t = Transformer::new(encoded(&DynamicImage::ImageRgba8(source.clone()), ImageFormat::Png));
    t.crop(1, 2, 3, 2);
    let task = t.raw_pixels();
    let first = t.start(task);
    let bytes = buffer(finish(&mut t, first));
    let mut expected = Vec::new();
    for j in 0..2 {
        for i in 0..3 {
            expected.extend_from_slice(&source.get_pixel(1 + i, 2 + j).0);
        }
    }
    assert_eq!(bytes, expected);
}

#[test]
fn the_builder_calls_can_be_chained() {
    let mut t = Transformer::new(encoded(&two_halves(20, 10), ImageFormat::Png));
    let same: &Transformer = t.crop(0, 0, 10, 10);
    assert_eq!(same.input().len(), encoded(&two_halves(20, 10), ImageFormat::Png).len());
    let mut t = Transformer::new(encoded(&two_halves(20, 10), ImageFormat::Png));
    assert!(t.overlay(encoded(&two_halves(2, 2), ImageFormat::Png), 0, 0).is_ok());
    t.grayscale();
    t.invert();
    let out = png_of(&mut t);
    assert_eq!((out.width(), out.height()), (20, 10));
}

#[test]
fn grayscale_and_invert_change_the_pixels() {
    let mut t = Transformer::new(encoded(&two_halves(4, 4), ImageFormat::Png));
    t.grayscale();
    let out = png_of(&mut t);
    assert_eq!(out.color(), image::ColorType::La8);
    let mut t = Transformer::new(encoded(&two_halves(4, 4), ImageFormat::Png));
    t.invert();
    let out = png_of(&mut t).to_rgba8();
    assert_eq!(out.get_pixel(0, 0), &Rgba([0, 255, 255, 255]));
}

#[test]
fn brighten_and_huerotate_change_the_pixels() {
    let gray = DynamicImage::ImageRgba8(RgbaImage::from_pixel(4, 4, Rgba([100, 100, 100, 255])));
    let mut t = Transformer::new(encoded(&gray, ImageFormat::Png));
    t.brighten(20);
    let out = png_of(&mut t).to_rgba8();
    assert_eq!(out.get_pixel(0, 0), &Rgba([120, 120, 120, 255]));
    let mut t = Transformer::new(encoded(&two_halves(4, 4), ImageFormat::Png));
    t.huerotate(120);
    let out = png_of(&mut t).to_rgba8();
    let p = out.get_pixel(0, 0);
    assert!(p.0[1] > 100 && p.0[0] < 60 && p.0[2] < 60, "red turns to green: {:?}", p);
}

#[test]
fn brightness_beyond_all_bounds_is_all_white_or_all_black() {
    for (amount, sample) in [(i32::MAX, 255u8), (70_000, 255), (i32::MIN, 0), (-70_000, 0)] {
        let mut t = Transformer::new(encoded(&two_halves(4, 4), ImageFormat::Png));
        t.brighten(amount);
        let out = png_of(&mut t).to_rgba8();
        for p in out.pixels() {
            assert_eq!(p, &Rgba([sample, sample, sample, 255]), "{}", amount);
        }
    }
    let deep = DynamicImage::ImageRgb16(two_halves(4, 4).to_rgb16());
    let mut t = Transformer::new(encoded(&deep, ImageFormat::Png));
    t.brighten(65535);
    let out = png_of(&mut t).to_rgb16();
    assert!(out.pixels().all(|p| p.0 == [65535, 65535, 65535]));
}

#[test]
fn brightness_is_for_whole_number_samples() {
    let float = DynamicImage::ImageRgb32F(two_halves(4, 4).to_rgb32f());
    let source = encoded(&float, ImageFormat::Tiff);
    let mut t = Transformer::new(source.clone());
    assert_eq!(t.metadata_sync(None).unwrap().color_type, JsColorType::Rgb32F);
    t.brighten(10);
    let task = t.raw_pixels();
    assert!(matches!(t.start(task), Err(Error::UnsupportedColorType)));
    // Everything else goes through.
    let mut t = Transformer::new(source);
    t.invert();
    t.huerotate(90);
    t.crop(0, 0, 2, 2);
    let task = t.raw_pixels();
    let first = t.start(task);
    assert_eq!(buffer(finish(&mut t, first)).len(), 2 * 2 * 12);
}

#[test]
fn the_real_number_filters_are_handed_out_in_their_order() {
    let mut t = Transformer::new(encoded(&two_halves(16, 16), ImageFormat::Png));
    t.blur(2.5f64.to_bits());
    t.adjust_contrast(10.0f64.to_bits());
    t.unsharpen(1.5f64.to_bits(), 3);
    let mut seen = Vec::new();
    let mut progress = t.png_sync(None).unwrap();
    let bytes = loop {
        match progress {
            Progress::Done(EncodeOutput::Buffer(bytes)) => break bytes,
            Progress::Done(_) => panic!("a buffer was expected"),
            Progress::Pending { task, image, request } => {
                seen.push(request);
                progress = t.resume(task, apply(image, request)).unwrap();
            }
        }
    };
    assert_eq!(
        seen,
        vec![
            FilterRequest::Contrast(10.0f64.to_bits()),
            FilterRequest::Blur(2.5f64.to_bits()),
            FilterRequest::Unsharpen(1.5f64.to_bits(), 3),
        ]
    );
    let out = image::load_from_memory(&bytes).unwrap().to_rgba8();
    // The blur has mixed the two halves where they meet.
    let p = out.get_pixel(8, 8);
    assert!(p.0[0] > 0 && p.0[2] > 0, "{:?}", p);
}

#[test]
fn the_same_queue_gives_the_same_encode_again() {
    let mut t = Transformer::new(encoded(&two_halves(20, 10), ImageFormat::Png));
    t.crop(0, 0, 10, 10);
    let first = t.png_sync(None);
    let first = buffer(finish(&mut t, first));
    let out = image::load_from_memory_with_format(&first, ImageFormat::Png).unwrap();
    assert_eq!((out.width(), out.height()), (10, 10));
    // The session keeps the image that the input was decoded to.
    let data = t.metadata_sync(None).unwrap();
    assert_eq!((data.width, data.height), (20, 10));
    let second = t.png_sync(None);
    assert_eq!(buffer(finish(&mut t, second)), first);
}

#[test]
fn a_half_turn_is_not_undone_by_a_second_encode() {
    let mut t = Transformer::from_rgba_pixels(vec![255, 0, 0, 255, 0, 0, 255, 255], 2, 1).unwrap();
    t.rotate(Some(Orientation::Rotate180));
    assert_eq!(raw(&mut t), vec![0, 0, 255, 255, 255, 0, 0, 255]);
    assert_eq!(raw(&mut t), vec![0, 0, 255, 255, 255, 0, 0, 255]);
    let task = t.raw_pixels();
    let third = t.start(task);
    assert_eq!(buffer(finish(&mut t, third)), vec![0, 0, 255, 255, 255, 0, 0, 255]);
}

#[test]
fn raw_pixels_are_those_of_the_transformed_image() {
    let img = two_halves(4, 2);
    let mut t = Transformer::new(encoded(&img, ImageFormat::Png));
    assert_eq!(raw(&mut t), img.as_bytes().to_vec());
    t.invert();
    let mut inverted = img.clone();
    inverted.invert();
    assert_eq!(raw(&mut t), inverted.as_bytes().to_vec());
    let task = t.raw_pixels();
    let first = t.start(task);
    assert_eq!(buffer(finish(&mut t, first)), inverted.as_bytes().to_vec());
}

#[test]
fn raw_pixels_after_a_resize_have_the_size_of_the_fit() {
    let sizes = [(ResizeFit::Inside, 100, 100, 100 * 50 * 4), (ResizeFit::Fill, 100, 100, 100 * 100 * 4), (ResizeFit::Cover, 50, 50, 50 * 50 * 4)];
    for (fit, width, height, bytes) in sizes {
        let mut t = Transformer::from_rgba_pixels(vec![255; 80000], 200, 100).unwrap();
        t.resize(WidthOrOptions::Width(width), Some(height), None, Some(fit));
        assert_eq!(raw(&mut t).len(), bytes, "{:?}", fit);
    }
}

#[test]
fn the_orientation_is_corrected_before_the_crop() {
    let mut t = Transformer::from_rgba_pixels(vec![255, 0, 0, 255, 0, 0, 255, 255], 2, 1).unwrap();
    t.crop(0, 0, 1, 1);
    t.rotate(Some(Orientation::Rotate180));
    assert_eq!(raw(&mut t), vec![0, 0, 255, 255]);
}

#[test]
fn a_quarter_turn_clockwise_puts_the_left_pixel_on_top() {
    let mut t = Transformer::from_rgba_pixels(vec![255, 0, 0, 255, 0, 0, 255, 255], 2, 1).unwrap();
    t.rotate(Some(Orientation::Rotate90Cw));
    assert_eq!(raw(&mut t), vec![255, 0, 0, 255, 0, 0, 255, 255]);
    let first = t.png_sync(None);
    let out = image::load_from_memory(&buffer(finish(&mut t, first))).unwrap();
    assert_eq!((out.width(), out.height()), (1, 2));
}

#[test]
fn every_raster_format_is_written() {
    let img = two_halves(16, 8);
    let formats: [(fn(&mut Transformer) -> Result<Progress, Error>, ImageFormat); 8] = [
        (|t| t.png_sync(None), ImageFormat::Png),
        (|t| t.jpeg_sync(None), ImageFormat::Jpeg),
        (|t| t.bmp_sync(), ImageFormat::Bmp),
        (|t| t.ico_sync(), ImageFormat::Ico),
        (|t| t.tiff_sync(), ImageFormat::Tiff),
        (|t| t.pnm_sync(), ImageFormat::Pnm),
        (|t| t.tga_sync(), ImageFormat::Tga),
        (|t| t.farbfeld_sync(), ImageFormat::Farbfeld),
    ];
    for (encode, format) in formats {
        // Farbfeld holds sixteen bits a channel and takes nothing else.
        let source = if format == ImageFormat::Farbfeld {
            DynamicImage::ImageRgba16(img.to_rgba16())
        } else {
            img.clone()
        };
        let mut t = Transformer::new(encoded(&source, ImageFormat::Png));
        let first = encode(&mut t);
        let bytes = buffer(finish(&mut t, first));
        let back = image::load_from_memory_with_format(&bytes, format).unwrap();
        assert_eq!((back.width(), back.height()), (16, 8), "{:?}", format);
    }
}

#[test]
fn an_encoder_that_rejects_the_image_fails_the_encode() {
    let mut t = Transformer::new(encoded(&two_halves(300, 8), ImageFormat::Png));
    match t.ico_sync() {
        Err(Error::EncodeFailed { target, detail }) => {
            assert_eq!(target, TargetFormat::Ico);
            assert!(!detail.is_empty());
        }
        _ => panic!("an encode failure was expected"),
    }
    // The failed encode has not touched the image.
    let data = t.metadata_sync(None).unwrap();
    assert_eq!((data.width, data.height), (300, 8));
}

#[test]
fn webp_takes_eight_bit_color_and_gray() {
    let img = two_halves(6, 4);
    let mut t = Transformer::new(encoded(&img, ImageFormat::Png));
    match t.webp_sync(None) {
        Ok(Progress::Done(EncodeOutput::Webp(job))) => {
            assert_eq!((job.width, job.height, job.stride), (6, 4, 24));
            assert!(job.alpha);
            assert_eq!(job.quality, Some(90));
            assert_eq!(job.pixels, img.as_bytes().to_vec());
        }
        _ => panic!("a WebP job was expected"),
    }
    let gray = DynamicImage::ImageLuma8(img.to_luma8());
    let mut t = Transformer::new(encoded(&gray, ImageFormat::Png));
    match t.webp_lossless_sync() {
        Ok(Progress::Done(EncodeOutput::Webp(job))) => {
            assert_eq!((job.width, job.height, job.stride), (6, 4, 18));
            assert!(!job.alpha);
            assert_eq!(job.quality, None);
            assert_eq!(job.pixels, gray.to_rgb8().into_raw());
        }
        _ => panic!("a WebP job was expected"),
    }
    let veiled = DynamicImage::ImageLumaA8(img.to_luma_alpha8());
    let mut t = Transformer::new(encoded(&veiled, ImageFormat::Png));
    match t.webp_sync(Some(10)) {
        Ok(Progress::Done(EncodeOutput::Webp(job))) => {
            assert_eq!((job.width, job.height, job.stride), (6, 4, 24));
            assert!(job.alpha);
            assert_eq!(job.quality, Some(10));
            assert_eq!(job.pixels, veiled.to_rgba8().into_raw());
        }
        _ => panic!("a WebP job was expected"),
    }
    let deep = DynamicImage::ImageRgb16(img.to_rgb16());
    let mut t = Transformer::new(encoded(&deep, ImageFormat::Png));
    assert!(matches!(t.webp_sync(Some(50)), Err(Error::UnsupportedColorType)));
    assert!(matches!(t.webp_lossless_sync(), Err(Error::UnsupportedColorType)));
}

#[test]
fn avif_gets_its_defaults_and_eight_bit_samples() {
    let img = two_halves(6, 4);
    let mut t = Transformer::new(encoded(&img, ImageFormat::Png));
    match t.avif_sync(None) {
        Ok(Progress::Done(EncodeOutput::Avif(job))) => {
            assert_eq!((job.config.quality, job.config.alpha_quality, job.config.speed), (80, 90, 4));
            assert!(job.config.threads >= 1);
            assert_eq!((job.width, job.height), (6, 4));
            assert_eq!(job.pixels, img.as_bytes().to_vec());
        }
        _ => panic!("an AVIF job was expected"),
    }
    let deep = DynamicImage::ImageRgb16(img.to_rgb16());
    let mut t = Transformer::new(encoded(&deep, ImageFormat::Png));
    match t.avif_sync(None) {
        Ok(Progress::Done(EncodeOutput::Avif(job))) => {
            assert_eq!(job.pixels, deep.to_rgb8().into_raw());
        }
        _ => panic!("an AVIF job was expected"),
    }
}

#[test]
fn a_container_longer_than_its_pixels_is_not_encoded() {
    let words = "the pixel buffer does not match the size of the image";
    let mut t = Transformer::from_rgba_pixels(vec![255; 9], 1, 2).unwrap();
    match t.png_sync(None) {
        Err(e) => assert_eq!(e, Error::EncodeFailed { target: TargetFormat::Png, detail: words.to_string() }),
        Ok(_) => panic!("a container of nine bytes was encoded as two pixels"),
    }
    match t.bmp_sync() {
        Err(e) => assert_eq!(e, Error::EncodeFailed { target: TargetFormat::Bmp, detail: words.to_string() }),
        Ok(_) => panic!("a container of nine bytes was encoded as two pixels"),
    }
    assert_eq!(raw(&mut t), vec![255; 9]);
}
