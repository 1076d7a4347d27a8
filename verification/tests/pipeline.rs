use image::ImageDecoder;
use image::ImageEncoder;
use imgpipe::pipeline::process_image;
use imgpipe::pipeline::ProcessOutcome;
use imgpipe::processor::ImageParams;
use imgpipe::processor::ImageType;
use imgpipe::processor::PipelineError;

/// Encodes a solid-color RGB image as PNG, optionally with an
/// embedded ICC profile.
fn make_png(width: u32, height: u32, icc: Option<&[u8]>) -> Vec<u8> {
    let img = image::RgbImage::from_pixel(width, height, image::Rgb([10, 200, 30]));
    let mut buf = std::io::Cursor::new(Vec::new());
    let mut enc = image::codecs::png::PngEncoder::new(&mut buf);
    if let Some(p) = icc {
        enc.set_icc_profile(p.to_vec()).unwrap();
    }
    enc.write_image(img.as_raw(), width, height, image::ExtendedColorType::Rgb8)
        .unwrap();
    buf.into_inner()
}

fn default_params() -> ImageParams {
    ImageParams::new(None, None, None, None)
}

fn expect_err(r: Result<ProcessOutcome, PipelineError>) -> PipelineError {
    match r {
        Ok(_) => panic!("the pipeline accepted input it must reject"),
        Err(e) => e,
    }
}

#[test]
fn fast_path_returns_input_verbatim() {
    let png = make_png(10, 10, None);
    let out = process_image(png.clone(), ImageType::Png, &default_params()).unwrap();
    match out {
        ProcessOutcome::Done(res) => {
            assert_eq!(res.data, png);
            assert_eq!(res.format, ImageType::Png);
        }
        ProcessOutcome::NeedsWebp(_) => panic!("fast path must not reach the WebP encoder"),
    }
}

#[test]
fn unsupported_target_rejected_without_decode() {
    // the bytes are not an image at all; the target check must come first
    let garbage = vec![0u8; 32];
    let params = ImageParams::new(None, None, None, Some(ImageType::Svg));
    let err = expect_err(process_image(garbage, ImageType::Png, &params));
    assert_eq!(err, PipelineError::UnsupportedTargetFormat);
    let params = ImageParams::new(None, None, None, Some(ImageType::Unknown));
    let err = expect_err(process_image(vec![1, 2, 3], ImageType::Jpeg, &params));
    assert_eq!(err, PipelineError::UnsupportedTargetFormat);
}

#[test]
fn malformed_bytes_are_a_decode_error() {
    let garbage = vec![0x89u8, 0x50, 0x4e, 0x47, 1, 2, 3, 4, 5, 6, 7, 8];
    let err = expect_err(process_image(garbage, ImageType::Png, &default_params()));
    assert_eq!(err, PipelineError::DecodeError(ImageType::Png));
}

#[test]
fn transcode_png_to_jpeg() {
    let png = make_png(10, 6, None);
    let params = ImageParams::new(Some(90), None, None, Some(ImageType::Jpeg));
    let out = process_image(png, ImageType::Png, &params).unwrap();
    match out {
        ProcessOutcome::Done(res) => {
            assert_eq!(res.format, ImageType::Jpeg);
            let d =
                image::codecs::jpeg::JpegDecoder::new(std::io::Cursor::new(&res.data)).unwrap();
            assert_eq!(d.dimensions(), (10, 6));
        }
        ProcessOutcome::NeedsWebp(_) => panic!("a JPEG target must finish in the pipeline"),
    }
}

#[test]
fn resize_respects_plan() {
    let png = make_png(200, 100, None);
    let params = ImageParams::new(None, Some(50), Some(50), None);
    let out = process_image(png, ImageType::Png, &params).unwrap();
    match out {
        ProcessOutcome::Done(res) => {
            assert_eq!(res.format, ImageType::Png);
            let d = image::codecs::png::PngDecoder::new(std::io::Cursor::new(&res.data)).unwrap();
            assert_eq!(d.dimensions(), (50, 25));
        }
        ProcessOutcome::NeedsWebp(_) => panic!("a PNG target must finish in the pipeline"),
    }
}

#[test]
fn profile_preserved_into_png() {
    let profile = b"acme display profile".to_vec();
    let png = make_png(64, 64, Some(&profile));
    // shrinking forces a re-encode of the same format
    let params = ImageParams::new(None, Some(32), Some(32), None);
    let out = process_image(png, ImageType::Png, &params).unwrap();
    match out {
        ProcessOutcome::Done(res) => {
            let mut d =
                image::codecs::png::PngDecoder::new(std::io::Cursor::new(&res.data)).unwrap();
            assert_eq!(d.icc_profile().unwrap(), Some(profile));
        }
        ProcessOutcome::NeedsWebp(_) => panic!("a PNG target must finish in the pipeline"),
    }
}

#[test]
fn profile_preserved_into_jpeg() {
    let profile = b"acme printer profile".to_vec();
    let png = make_png(64, 64, Some(&profile));
    let params = ImageParams::new(None, None, None, Some(ImageType::Jpeg));
    let out = process_image(png, ImageType::Png, &params).unwrap();
    match out {
        ProcessOutcome::Done(res) => {
            let mut d =
                image::codecs::jpeg::JpegDecoder::new(std::io::Cursor::new(&res.data)).unwrap();
            assert_eq!(d.icc_profile().unwrap(), Some(profile));
        }
        ProcessOutcome::NeedsWebp(_) => panic!("a JPEG target must finish in the pipeline"),
    }
}

#[test]
fn profile_and_quality_carried_into_webp_task() {
    let profile = b"acme scanner profile".to_vec();
    let png = make_png(20, 20, Some(&profile));
    let params = ImageParams::new(Some(77), None, None, Some(ImageType::WebP));
    let out = process_image(png.clone(), ImageType::Png, &params).unwrap();
    match out {
        ProcessOutcome::NeedsWebp(task) => {
            assert_eq!(task.data, png);
            assert_eq!(task.src_format, ImageType::Png);
            assert_eq!((task.width, task.height), (20, 20));
            assert_eq!(task.quality, 77);
            assert_eq!(task.icc, Some(profile));
        }
        ProcessOutcome::Done(_) => panic!("a WebP target needs the native encoder"),
    }
}

#[test]
fn same_format_within_bounds_skips_recompression_even_when_declared() {
    // declaring the source format explicitly still takes the fast path
    let png = make_png(10, 10, None);
    let params = ImageParams::new(None, None, None, Some(ImageType::Png));
    let out = process_image(png.clone(), ImageType::Png, &params).unwrap();
    match out {
        ProcessOutcome::Done(res) => assert_eq!(res.data, png),
        ProcessOutcome::NeedsWebp(_) => panic!("fast path must not reach the WebP encoder"),
    }
}
