use image_transformer::avif::encode_image;
use image_transformer::avif::AvifConfig;
use image_transformer::avif::AvifSamples;
use image_transformer::avif::ChromaSubsampling;
use image_transformer::avif::Config;
use image_transformer::error::Error;
use image_transformer::exif::parse_exif;
use image_transformer::error::SourceFormat;
use image_transformer::fast_resize::fast_resize_target;
use image_transformer::fast_resize::FastResizeOptions;
use image_transformer::fast_resize::ResizeFit;
use image_transformer::orientation::Orientation;
use image_transformer::png::quant_settings;
use image_transformer::png::to_oxipng_options;
use image_transformer::png::PNGLosslessOptions;
use image_transformer::png::PngQuantOptions;
use image_transformer::png::PngRowFilter;
use image_transformer::session::avif_image;
use image_transformer::session::ThreadsafeDynamicImage;
use image_transformer::svg::svg_raster_size;
use image_transformer::transformer::format_name;
use image_transformer::utils::scaled_height;

#[test]
fn orientation_codes_run_from_one_to_eight() {
    let all = [
        Orientation::Horizontal,
        Orientation::MirrorHorizontal,
        Orientation::Rotate180,
        Orientation::MirrorVertical,
        Orientation::MirrorHorizontalAndRotate270Cw,
        Orientation::Rotate90Cw,
        Orientation::MirrorHorizontalAndRotate90Cw,
        Orientation::Rotate270Cw,
    ];
    for (i, o) in all.iter().enumerate() {
        assert_eq!(o.to_u16(), i as u16 + 1);
        assert_eq!(Orientation::try_from(i as u16 + 1), Ok(*o));
    }
    assert_eq!(Orientation::try_from(0), Err(Error::InvalidOrientation));
    assert_eq!(Orientation::try_from(9), Err(Error::InvalidOrientation));
    assert_eq!(Orientation::try_from(u16::MAX), Err(Error::InvalidOrientation));
    assert_eq!(Orientation::default(), Orientation::Horizontal);
}

#[test]
fn the_missing_height_keeps_the_aspect_ratio() {
    assert_eq!(scaled_height(100, 200, 100), 50);
    assert_eq!(scaled_height(1000, 3000, 2000), 666);
    assert_eq!(scaled_height(1, 1000, 1), 0);
    assert_eq!(scaled_height(u32::MAX, 1, u32::MAX), u32::MAX);
    assert_eq!(scaled_height(10, 0, 5), u32::MAX);
    assert_eq!(scaled_height(0, 0, 5), 0);
    assert_eq!(scaled_height(10, 0, 0), 0);
}

#[test]
fn the_fast_resize_target_follows_the_fit() {
    let options = |fit| FastResizeOptions { width: 100, height: Some(100), filter: None, fit };
    assert_eq!(fast_resize_target(200, 100, options(None)), Ok((100, 100)));
    assert_eq!(fast_resize_target(200, 100, options(Some(ResizeFit::Fill))), Ok((100, 100)));
    assert_eq!(fast_resize_target(200, 100, options(Some(ResizeFit::Inside))), Ok((100, 50)));
    let derived = FastResizeOptions { width: 50, height: None, filter: None, fit: None };
    assert_eq!(fast_resize_target(200, 100, derived), Ok((50, 25)));
    let flat = FastResizeOptions { width: 1, height: None, filter: None, fit: None };
    assert_eq!(fast_resize_target(200, 100, flat), Err(Error::InvalidDimensions));
    let inside = FastResizeOptions { width: 1, height: None, filter: None, fit: Some(ResizeFit::Inside) };
    assert_eq!(fast_resize_target(200, 100, inside), Ok((1, 1)));
    let huge = FastResizeOptions { width: u32::MAX, height: Some(u32::MAX), filter: None, fit: None };
    assert_eq!(fast_resize_target(200, 100, huge), Err(Error::InvalidDimensions));
}

#[test]
fn avif_settings_have_their_defaults() {
    let config = Config::resolve(AvifConfig::default(), 8);
    assert_eq!(
        config,
        Config { quality: 80, alpha_quality: 90, speed: 4, threads: 8, chroma_subsampling: ChromaSubsampling::Yuv444 }
    );
    let given = AvifConfig {
        quality: Some(50),
        alpha_quality: Some(60),
        speed: Some(10),
        threads: Some(3),
        chroma_subsampling: Some(ChromaSubsampling::Yuv420),
    };
    assert_eq!(
        Config::resolve(given, 8),
        Config { quality: 50, alpha_quality: 60, speed: 10, threads: 3, chroma_subsampling: ChromaSubsampling::Yuv420 }
    );
    // No thread count and a count of zero both mean every core.
    let zero = AvifConfig { threads: Some(0), ..AvifConfig::default() };
    assert_eq!(Config::resolve(zero, 6).threads, 6);
    // A number above a byte keeps its low eight bits.
    let wide = AvifConfig { quality: Some(300), ..AvifConfig::default() };
    assert_eq!(Config::resolve(wide, 1).quality, 44);
    assert!(Config::from(AvifConfig::default()).threads >= 1);
}

#[test]
fn avif_samples_are_told_by_their_number() {
    assert_eq!(encode_image(&[0; 12], 4, 3), AvifSamples::Luma8);
    assert_eq!(encode_image(&[0; 36], 4, 3), AvifSamples::Rgb);
    assert_eq!(encode_image(&[0; 48], 4, 3), AvifSamples::Rgb);
    assert_eq!(encode_image(&[], 0, 0), AvifSamples::Luma8);
}

#[test]
fn decoded_avif_samples_make_an_image() {
    assert_eq!(avif_image(2, 2, vec![7; 12]).unwrap().color(), image::ColorType::Rgb8);
    assert_eq!(avif_image(2, 2, vec![7; 16]).unwrap().color(), image::ColorType::Rgba8);
    assert_eq!(avif_image(2, 2, vec![7; 4]).unwrap().color(), image::ColorType::L8);
    assert_eq!(avif_image(2, 2, vec![7; 5]).unwrap().color(), image::ColorType::L8);
    assert!(matches!(avif_image(2, 2, vec![7; 3]), Err(Error::DecodeFailed { source: SourceFormat::Avif, .. })));
    assert!(matches!(
        avif_image(u32::MAX, u32::MAX, vec![7; 3]),
        Err(Error::DecodeFailed { source: SourceFormat::Avif, .. })
    ));
}

#[test]
fn a_session_takes_the_samples_of_an_avif_decoder() {
    let mut bytes = vec![0, 0, 0, 0x1c];
    bytes.extend_from_slice(b"ftypavif");
    bytes.extend_from_slice(&[0; 16]);
    let mut session = ThreadsafeDynamicImage::new(bytes);
    assert!(session.awaits_avif());
    assert!(matches!(session.get(false), Err(Error::DecodeFailed { source: SourceFormat::Avif, .. })));
    assert!(session.supply_avif(2, 2, vec![1; 3], false).is_err());
    assert!(session.awaits_avif());
    assert_eq!(session.supply_avif(2, 2, vec![1; 12], false), Ok(()));
    assert!(!session.awaits_avif());
    assert_eq!(session.get(true), Ok(()));
    let meta = session.meta().unwrap();
    assert_eq!((meta.width(), meta.height()), (2, 2));
    assert_eq!(meta.format(), SourceFormat::Avif);
    assert!(meta.has_parsed_exif());
    assert_eq!(meta.orientation(), None);
    // Later samples do not replace the image.
    assert_eq!(session.supply_avif(1, 1, vec![1; 3], false), Ok(()));
    assert_eq!(session.meta().unwrap().width(), 2);
    // An input of another container takes no samples.
    let mut png = ThreadsafeDynamicImage::new(vec![0x89, b'P', b'N', b'G', 0x0d, 0x0a, 0x1a, 0x0a]);
    assert!(!png.awaits_avif());
    assert_eq!(png.supply_avif(1, 1, vec![1; 3], false), Ok(()));
    assert!(png.meta().is_none());
}

#[test]
fn the_optimizer_gets_its_defaults() {
    let settings = to_oxipng_options(&PNGLosslessOptions::default());
    assert!(!settings.flags.fix_errors);
    assert!(!settings.flags.force);
    assert_eq!(
        settings.filter,
        vec![PngRowFilter::NoFilter, PngRowFilter::Sub, PngRowFilter::Up, PngRowFilter::Average, PngRowFilter::Paeth]
    );
    assert!(settings.flags.bit_depth_reduction);
    assert!(settings.flags.color_type_reduction);
    assert!(settings.flags.palette_reduction);
    assert!(settings.flags.grayscale_reduction);
    assert!(settings.flags.idat_recoding);
    assert!(settings.flags.strip_all);
    let given = PNGLosslessOptions {
        fix_errors: Some(true),
        force: Some(true),
        filter: Some(vec![PngRowFilter::Brute, PngRowFilter::Brute]),
        bit_depth_reduction: Some(false),
        color_type_reduction: Some(false),
        palette_reduction: Some(false),
        grayscale_reduction: Some(false),
        idat_recoding: Some(false),
        strip: Some(false),
    };
    let settings = to_oxipng_options(&given);
    assert!(settings.flags.fix_errors && settings.flags.force);
    assert_eq!(settings.filter, vec![PngRowFilter::Brute, PngRowFilter::Brute]);
    let flags = settings.flags;
    assert!(!flags.bit_depth_reduction && !flags.color_type_reduction && !flags.palette_reduction);
    assert!(!flags.grayscale_reduction && !flags.idat_recoding && !flags.strip_all);
}

#[test]
fn the_quantizer_gets_its_defaults() {
    let settings = quant_settings(&PngQuantOptions::default());
    assert_eq!((settings.speed, settings.min_quality, settings.max_quality), (5, 70, 99));
    let given =
        PngQuantOptions { min_quality: Some(10), max_quality: Some(256 + 90), speed: Some(u32::MAX), posterization: None };
    let settings = quant_settings(&given);
    assert_eq!((settings.speed, settings.min_quality, settings.max_quality), (-1, 10, 90));
}

#[test]
fn an_svg_grows_until_both_sides_reach_a_thousand() {
    assert_eq!(svg_raster_size(10, 20), Some((1280, 2560)));
    assert_eq!(svg_raster_size(1000, 1000), Some((1000, 1000)));
    assert_eq!(svg_raster_size(999, 5000), Some((1998, 10000)));
    assert_eq!(svg_raster_size(1, 1), Some((1024, 1024)));
    assert_eq!(svg_raster_size(1, u32::MAX), None);
    assert_eq!(svg_raster_size(500, 0x7fff_ffff), Some((1000, 0xffff_fffe)));
    assert_eq!(svg_raster_size(500, 0x8000_0000), None);
}

#[test]
fn the_formats_have_their_names() {
    assert_eq!(format_name(SourceFormat::Jpeg), "jpeg");
    assert_eq!(format_name(SourceFormat::WebP), "webp");
    assert_eq!(format_name(SourceFormat::Farbfeld), "farbfeld");
    assert_eq!(format_name(SourceFormat::Other), "other");
    assert_eq!(format_name(SourceFormat::Dds), "dds");
    assert_eq!(format_name(SourceFormat::Hdr), "hdr");
    assert_eq!(format_name(SourceFormat::OpenExr), "openexr");
    assert_eq!(format_name(SourceFormat::Qoi), "qoi");
}

#[test]
fn exif_is_read_from_jpeg_and_tiff_only() {
    // A TIFF header with one entry: the orientation, of value 3.
    let tiff = vec![
        0x49, 0x49, 0x2a, 0x00, 0x08, 0x00, 0x00, 0x00, 0x01, 0x00, 0x12, 0x01, 0x03, 0x00, 0x01, 0x00, 0x00,
        0x00, 0x03, 0x00, 0x00, 0x00, 0x00, 0x00, 0x00, 0x00,
    ];
    let (tags, orientation) = parse_exif(&tiff, SourceFormat::Tiff).unwrap();
    assert_eq!(orientation, Some(3));
    assert_eq!(tags.len(), 1);
    assert_eq!(tags[0].name, "Orientation");
    assert!(parse_exif(&tiff, SourceFormat::Png).is_none());
    assert!(parse_exif(&tiff, SourceFormat::WebP).is_none());
    assert!(parse_exif(&[1, 2, 3], SourceFormat::Jpeg).is_none());
}
