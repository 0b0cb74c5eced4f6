use imgtool::batch::{
    check_batch_request, compression_requested, failure_message, is_supported_raster, plan_steps,
    BatchRejection, BatchSteps,
};
use imgtool::compress::{
    check_compress_request, infer_output_format as compress_output_format, output_format_of,
    target_size_bytes, CompressOptions, CompressRejection, OutputFormat as CompressFormat,
};
use imgtool::convert::{
    check_convert_request, infer_output_format as convert_output_format, output_format_name,
    ConvertOptions, ConvertRejection, OutputFormat as ConvertFormat,
};
use imgtool::paths::PathKind;
use imgtool::raster::{ExtensionRejection, PathRejection};
use imgtool::resize::{
    check_resize_paths, validate_extension, validate_output_extension, ResizeFilter,
    ResizeRejection,
};

fn compress_options(input: &str, output: &str, quality: u8, max_size_kb: Option<u64>) -> CompressOptions {
    CompressOptions {
        input: input.to_string(),
        output: output.to_string(),
        quality,
        max_size_kb,
    }
}

#[test]
fn compress_rejects_unsupported_output_extension() {
    let options = compress_options("tmp/input.jpg", "tmp/output.webp", 80, None);
    assert_eq!(
        check_compress_request(PathKind::File, &options),
        Err(CompressRejection::OutputExtension(ExtensionRejection::Unsupported))
    );
}

#[test]
fn compress_png_rejects_max_size_target() {
    let options = compress_options("tmp/input.png", "tmp/output.png", 80, Some(10));
    assert_eq!(
        check_compress_request(PathKind::File, &options),
        Err(CompressRejection::MaxSizeNeedsJpeg)
    );
}

#[test]
fn compress_checks_run_in_order() {
    let bad_everything = compress_options("in.txt", "out", 0, Some(0));
    assert_eq!(
        check_compress_request(PathKind::Missing, &bad_everything),
        Err(CompressRejection::InputPath(PathRejection::Missing))
    );
    assert_eq!(
        check_compress_request(PathKind::Directory, &bad_everything),
        Err(CompressRejection::InputPath(PathRejection::NotFile))
    );
    assert_eq!(
        check_compress_request(PathKind::File, &bad_everything),
        Err(CompressRejection::InputExtension(ExtensionRejection::Unsupported))
    );
    let no_ext = compress_options("in", "out.jpg", 80, None);
    assert_eq!(
        check_compress_request(PathKind::File, &no_ext),
        Err(CompressRejection::InputExtension(ExtensionRejection::Missing))
    );
    let quality_zero = compress_options("in.png", "out", 0, Some(0));
    assert_eq!(
        check_compress_request(PathKind::File, &quality_zero),
        Err(CompressRejection::QualityOutOfRange)
    );
    let quality_high = compress_options("in.png", "out.jpg", 101, None);
    assert_eq!(
        check_compress_request(PathKind::File, &quality_high),
        Err(CompressRejection::QualityOutOfRange)
    );
    let zero_limit = compress_options("in.png", "out", 50, Some(0));
    assert_eq!(
        check_compress_request(PathKind::File, &zero_limit),
        Err(CompressRejection::ZeroMaxSize)
    );
    let no_out_ext = compress_options("in.png", "out", 50, Some(3));
    assert_eq!(
        check_compress_request(PathKind::File, &no_out_ext),
        Err(CompressRejection::OutputExtension(ExtensionRejection::Missing))
    );
}

#[test]
fn compress_accepts_jpeg_with_limit_and_png_without() {
    let jpeg = compress_options("in.PNG", "out/x.JPEG", 95, Some(200));
    assert_eq!(check_compress_request(PathKind::File, &jpeg), Ok(CompressFormat::Jpeg));
    let png = compress_options("in.jpg", "out/x.png", 1, None);
    assert_eq!(check_compress_request(PathKind::File, &png), Ok(CompressFormat::Png));
    let jpeg_max_quality = compress_options("in.gif", "out.jpg", 100, None);
    assert_eq!(check_compress_request(PathKind::File, &jpeg_max_quality), Ok(CompressFormat::Jpeg));
}

#[test]
fn compress_output_formats() {
    assert_eq!(compress_output_format("a.jpg"), Ok(CompressFormat::Jpeg));
    assert_eq!(compress_output_format("a.Jpeg"), Ok(CompressFormat::Jpeg));
    assert_eq!(compress_output_format("a.PNG"), Ok(CompressFormat::Png));
    assert_eq!(
        compress_output_format("a.gif"),
        Err(CompressRejection::OutputExtension(ExtensionRejection::Unsupported))
    );
    assert_eq!(output_format_of(Some("jpg")), Ok(CompressFormat::Jpeg));
    assert_eq!(
        output_format_of(None),
        Err(CompressRejection::OutputExtension(ExtensionRejection::Missing))
    );
}

#[test]
fn size_limit_in_kib_becomes_bytes() {
    assert_eq!(target_size_bytes(None), None);
    assert_eq!(target_size_bytes(Some(1)), Some(1024));
    assert_eq!(target_size_bytes(Some(200)), Some(204_800));
    assert_eq!(target_size_bytes(Some(u64::MAX / 1024)), Some((u64::MAX / 1024) * 1024));
    assert_eq!(target_size_bytes(Some(u64::MAX / 1024 + 1)), Some(u64::MAX));
    assert_eq!(target_size_bytes(Some(u64::MAX)), Some(u64::MAX));
}

fn convert_options(input: &str, output: &str, quality: u8) -> ConvertOptions {
    ConvertOptions { input: input.to_string(), output: output.to_string(), quality }
}

#[test]
fn convert_rejects_unsupported_output_extension() {
    let options = convert_options("tmp/input.png", "tmp/output.avif", 80);
    assert_eq!(
        check_convert_request(PathKind::File, &options),
        Err(ConvertRejection::OutputExtension(ExtensionRejection::Unsupported))
    );
}

#[test]
fn convert_checks_and_formats() {
    assert_eq!(
        check_convert_request(PathKind::Missing, &convert_options("a.png", "b.jpg", 80)),
        Err(ConvertRejection::InputPath(PathRejection::Missing))
    );
    assert_eq!(
        check_convert_request(PathKind::File, &convert_options("a.raw", "b.jpg", 80)),
        Err(ConvertRejection::InputExtension(ExtensionRejection::Unsupported))
    );
    assert_eq!(
        check_convert_request(PathKind::File, &convert_options("a.png", "b.jpg", 0)),
        Err(ConvertRejection::QualityOutOfRange)
    );
    assert_eq!(
        check_convert_request(PathKind::File, &convert_options("a.png", "b", 80)),
        Err(ConvertRejection::OutputExtension(ExtensionRejection::Missing))
    );
    assert_eq!(
        check_convert_request(PathKind::File, &convert_options("a.png", "b.TIF", 80)),
        Ok(ConvertFormat::Tiff)
    );
    let cases = [
        ("o.jpg", ConvertFormat::Jpeg, "jpeg"),
        ("o.jpeg", ConvertFormat::Jpeg, "jpeg"),
        ("o.png", ConvertFormat::Png, "png"),
        ("o.webp", ConvertFormat::Webp, "webp"),
        ("o.bmp", ConvertFormat::Bmp, "bmp"),
        ("o.gif", ConvertFormat::Gif, "gif"),
        ("o.tiff", ConvertFormat::Tiff, "tiff"),
        ("o.tif", ConvertFormat::Tiff, "tiff"),
    ];
    for (path, format, name) in cases {
        assert_eq!(convert_output_format(path), Ok(format));
        assert_eq!(output_format_name(format), name);
    }
}

#[test]
fn resize_command_rejects_invalid_input_extension() {
    assert_eq!(
        check_resize_paths(PathKind::File, "tmp/in.txt", "tmp/out.png"),
        Err(ResizeRejection::InputExtension(ExtensionRejection::Unsupported))
    );
}

#[test]
fn resize_path_checks() {
    assert_eq!(
        check_resize_paths(PathKind::Missing, "in.txt", "out"),
        Err(ResizeRejection::InputPath(PathRejection::Missing))
    );
    assert_eq!(check_resize_paths(PathKind::File, "in.png", "out.WEBP"), Ok(()));
    assert_eq!(
        check_resize_paths(PathKind::File, "in.png", "out.avif"),
        Err(ResizeRejection::OutputExtension(ExtensionRejection::Unsupported))
    );
    assert_eq!(validate_extension("x"), Err(ResizeRejection::InputExtension(ExtensionRejection::Missing)));
    assert_eq!(validate_output_extension("x.bmp"), Ok(()));
    assert_eq!(
        validate_output_extension("x"),
        Err(ResizeRejection::OutputExtension(ExtensionRejection::Missing))
    );
}

#[test]
fn resize_filters_by_name() {
    assert_eq!(ResizeFilter::from_name("nearest"), Some(ResizeFilter::Nearest));
    assert_eq!(ResizeFilter::from_name("triangle"), Some(ResizeFilter::Triangle));
    assert_eq!(ResizeFilter::from_name("catmullrom"), Some(ResizeFilter::CatmullRom));
    assert_eq!(ResizeFilter::from_name("gaussian"), Some(ResizeFilter::Gaussian));
    assert_eq!(ResizeFilter::from_name("lanczos3"), Some(ResizeFilter::Lanczos3));
    assert_eq!(ResizeFilter::from_name("Lanczos3"), None);
    assert_eq!(ResizeFilter::from_name("bicubic"), None);
    assert_eq!(ResizeFilter::default_filter(), ResizeFilter::Lanczos3);
}

#[test]
fn batch_request_checks() {
    assert_eq!(check_batch_request(PathKind::Missing, true, true), Err(BatchRejection::InputMissing));
    assert_eq!(check_batch_request(PathKind::File, true, false), Err(BatchRejection::InputNotDirectory));
    assert_eq!(check_batch_request(PathKind::Directory, false, false), Err(BatchRejection::NoOperation));
    assert_eq!(check_batch_request(PathKind::Directory, true, false), Ok(()));
    assert_eq!(check_batch_request(PathKind::Directory, false, true), Ok(()));
}

#[test]
fn batch_steps_per_file() {
    assert_eq!(plan_steps(true, true), Ok(BatchSteps::ResizeThenCompress));
    assert_eq!(plan_steps(true, false), Ok(BatchSteps::Resize));
    assert_eq!(plan_steps(false, true), Ok(BatchSteps::Compress));
    assert_eq!(plan_steps(false, false), Err(BatchRejection::NoOperation));
}

#[test]
fn any_compression_option_requests_compression() {
    assert!(!compression_requested(false, None, None));
    assert!(compression_requested(true, None, None));
    assert!(compression_requested(false, Some(70), None));
    assert!(compression_requested(false, None, Some(300)));
}

#[test]
fn batch_targets_and_messages() {
    assert!(is_supported_raster("in/nested/sample.JPG"));
    assert!(!is_supported_raster("in/raw/sample.arw"));
    assert!(!is_supported_raster("in/note"));
    assert_eq!(
        failure_message("in/a.png", "quality must be in 1..=100"),
        "in/a.png: quality must be in 1..=100"
    );
}
