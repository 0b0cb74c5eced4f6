use imgtool::color::{bit_depth, infer_color_space, ColorKind};
use imgtool::metadata::exif::ExifBundle;
use imgtool::metadata::format::{FileKind, RasterFormat};
use imgtool::metadata::model::{CaptureInfo, RecordStatus};
use imgtool::metadata::processor::{
    apply_decoded_image, apply_exif, apply_raster_exif, apply_raster_format, begin_record, fill_fs_metadata, finish_raw,
    pixel_count, read_raster_record, record_from_file, status_label, MetadataRejection, MetadataRun, RasterInfo,
};

fn capture_with_make(make: &str) -> CaptureInfo {
    CaptureInfo {
        camera_make: Some(make.to_string()),
        camera_model: None,
        lens_model: None,
        datetime_original: None,
        exposure_time: None,
        f_number: None,
        iso: None,
        focal_length: None,
        gps: None,
    }
}

#[test]
fn single_png_without_exif_returns_basic_metadata() {
    let (mut record, kind) = begin_record("tmp/sample.png").expect("supported");
    assert_eq!(kind, FileKind::Raster);
    fill_fs_metadata(&mut record, 75, Some("1700000000".to_string()));
    apply_raster_format(&mut record, RasterFormat::Png).expect("supported format");
    apply_decoded_image(&mut record, RasterInfo { width: 4, height: 3, color: ColorKind::Rgba8 });
    apply_raster_exif(&mut record, Err("No Exif data found in PNG".to_string()));
    let mut run = MetadataRun::new(false);
    run.add_record(record);
    let out = run.finish();
    assert_eq!(out.summary.total, 1);
    assert_eq!(out.summary.succeeded, 1);
    assert_eq!(out.summary.failed, 0);
    let record = &out.records[0];
    assert_eq!(status_label(record.status), "ok");
    assert_eq!(record.mime.as_deref(), Some("image/png"));
    assert_eq!(record.extension.as_deref(), Some("png"));
    assert_eq!(record.width, Some(4));
    assert_eq!(record.height, Some(3));
    assert_eq!(record.pixel_count, Some(12));
    assert_eq!(record.channels, Some(4));
    assert_eq!(record.bit_depth, Some(8));
    assert_eq!(record.has_alpha, Some(true));
    assert_eq!(record.color_space.as_deref(), Some("RGB+Alpha"));
    assert_eq!(record.file_size_bytes, Some(75));
    assert_eq!(record.modified_at.as_deref(), Some("1700000000"));
    assert!(record.capture.is_none());
    assert!(record.warnings.is_empty());
    assert!(record.error.is_none());
}

#[test]
fn fresh_record_takes_mime_and_lowercase_extension() {
    let (record, kind) = begin_record("Photos/IMG.JPEG").expect("supported");
    assert_eq!(kind, FileKind::Raster);
    assert_eq!(record.path, "Photos/IMG.JPEG");
    assert_eq!(record.status, RecordStatus::Success);
    assert_eq!(record.mime.as_deref(), Some("image/jpeg"));
    assert_eq!(record.extension.as_deref(), Some("jpeg"));
    assert!(record.width.is_none() && record.file_size_bytes.is_none() && record.capture.is_none());
    let (record, kind) = begin_record("raw/DSC0001.ARW").expect("supported");
    assert_eq!(kind, FileKind::Raw);
    assert_eq!(record.mime.as_deref(), Some("image/x-sony-arw"));
    assert_eq!(record.extension.as_deref(), Some("arw"));
    assert!(matches!(begin_record("notes/note.txt"), Err(MetadataRejection::UnsupportedExtension)));
}

#[test]
fn decoded_format_overrides_the_extension_mime() {
    let (mut record, _) = begin_record("x/actually_png.jpg").expect("supported");
    apply_raster_format(&mut record, RasterFormat::Png).expect("supported format");
    apply_decoded_image(&mut record, RasterInfo { width: 2, height: 5, color: ColorKind::L16 });
    assert_eq!(record.mime.as_deref(), Some("image/png"));
    assert_eq!(record.extension.as_deref(), Some("jpg"));
    assert_eq!(record.channels, Some(1));
    assert_eq!(record.bit_depth, Some(16));
    assert_eq!(record.has_alpha, Some(false));
    assert_eq!(record.color_space.as_deref(), Some("Grayscale"));
    assert_eq!(record.pixel_count, Some(10));
}

#[test]
fn exif_read_failures_become_warnings() {
    let (mut record, _) = begin_record("x/a.jpg").expect("supported");
    apply_raster_exif(&mut record, Ok(None));
    assert!(record.warnings.is_empty());
    apply_raster_exif(&mut record, Err("Invalid TIFF byte order".to_string()));
    assert_eq!(record.warnings, vec!["failed to read EXIF: Invalid TIFF byte order".to_string()]);
    apply_raster_exif(&mut record, Err("something not found".to_string()));
    assert_eq!(record.warnings.len(), 1);
}

#[test]
fn exif_bundle_replaces_what_it_has() {
    let (mut record, _) = begin_record("x/a.jpg").expect("supported");
    apply_raster_format(&mut record, RasterFormat::Jpeg).expect("supported format");
    apply_decoded_image(&mut record, RasterInfo { width: 100, height: 50, color: ColorKind::Rgb8 });
    apply_exif(
        &mut record,
        ExifBundle {
            orientation: Some("Row 0 at top and column 0 at left".to_string()),
            color_space: None,
            capture: Some(capture_with_make("Canon")),
            dimensions: Some((6000, 4000)),
        },
    );
    assert_eq!(record.orientation.as_deref(), Some("Row 0 at top and column 0 at left"));
    assert_eq!(record.color_space.as_deref(), Some("RGB"));
    assert_eq!(record.width, Some(6000));
    assert_eq!(record.height, Some(4000));
    assert_eq!(record.pixel_count, Some(24_000_000));
    assert_eq!(record.capture.as_ref().and_then(|c| c.camera_make.as_deref()), Some("Canon"));
    assert_eq!(record.channels, Some(3));
}

#[test]
fn sony_raw_extension_is_supported_via_exif_metadata() {
    let (mut record, kind) = begin_record("tmp/sample.arw").expect("supported");
    assert_eq!(kind, FileKind::Raw);
    let bundle = ExifBundle {
        orientation: None,
        color_space: None,
        capture: Some(capture_with_make("Canon")),
        dimensions: Some((2, 2)),
    };
    finish_raw(&mut record, Ok(Some(bundle))).expect("raw record");
    let mut run = MetadataRun::new(false);
    run.add_record(record);
    let out = run.finish();
    assert_eq!(out.summary.total, 1);
    assert_eq!(out.summary.succeeded, 1);
    assert_eq!(out.summary.failed, 0);
    let record = &out.records[0];
    assert_eq!(record.mime.as_deref(), Some("image/x-sony-arw"));
    assert_eq!(record.width, Some(2));
    assert_eq!(record.height, Some(2));
    assert_eq!(record.color_space.as_deref(), Some("Unknown (RAW)"));
    assert_eq!(record.capture.as_ref().and_then(|c| c.camera_make.as_deref()), Some("Canon"));
}

#[test]
fn broken_raw_file_is_counted_as_failure_without_record() {
    let (mut record, _) = begin_record("tmp/broken.nef").expect("supported");
    let outcome = finish_raw(&mut record, Err("Unknown image format".to_string()));
    assert!(matches!(outcome, Err(MetadataRejection::RawExifUnreadable(ref m)) if m == "Unknown image format"));
    let mut run = MetadataRun::new(false);
    assert!(!run.add_failure());
    let out = run.finish();
    assert_eq!(out.summary.total, 1);
    assert_eq!(out.summary.succeeded, 0);
    assert_eq!(out.summary.failed, 1);
    assert_eq!(out.records.len(), 0);
}

#[test]
fn raw_files_need_exif_with_dimensions() {
    let (mut record, _) = begin_record("tmp/a.dng").expect("supported");
    assert!(matches!(finish_raw(&mut record, Ok(None)), Err(MetadataRejection::RawWithoutExif)));
    let bundle = ExifBundle { orientation: None, color_space: Some("sRGB".to_string()), capture: None, dimensions: None };
    assert!(matches!(finish_raw(&mut record, Ok(Some(bundle))), Err(MetadataRejection::RawWithoutDimensions)));
    let bundle = ExifBundle { orientation: None, color_space: Some("sRGB".to_string()), capture: None, dimensions: Some((10, 20)) };
    assert!(finish_raw(&mut record, Ok(Some(bundle))).is_ok());
    assert_eq!(record.color_space.as_deref(), Some("sRGB"));
    assert_eq!(record.pixel_count, Some(200));
}

#[test]
fn status_labels() {
    assert_eq!(status_label(RecordStatus::Success), "ok");
    assert_eq!(status_label(RecordStatus::Error), "error");
}

#[test]
fn pixel_count_does_not_overflow() {
    assert_eq!(pixel_count(u32::MAX, u32::MAX), (u32::MAX as u64) * (u32::MAX as u64));
    assert_eq!(pixel_count(0, 7), 0);
}

#[test]
fn color_facts_per_color_type() {
    let cases = [
        (ColorKind::L8, 8, "Grayscale"),
        (ColorKind::La8, 8, "Grayscale"),
        (ColorKind::Rgb8, 8, "RGB"),
        (ColorKind::Rgba8, 8, "RGB+Alpha"),
        (ColorKind::L16, 16, "Grayscale"),
        (ColorKind::La16, 16, "Grayscale"),
        (ColorKind::Rgb16, 16, "RGB"),
        (ColorKind::Rgba16, 16, "RGB+Alpha"),
        (ColorKind::Rgb32F, 32, "RGB"),
        (ColorKind::Rgba32F, 32, "RGB+Alpha"),
    ];
    for (kind, depth, space) in cases {
        assert_eq!(bit_depth(kind), depth);
        assert_eq!(infer_color_space(kind), space);
    }
}

#[test]
fn unsupported_decoded_format_leaves_the_record() {
    let (mut record, _) = begin_record("x/a.gif").expect("supported");
    assert!(matches!(
        apply_raster_format(&mut record, RasterFormat::Other),
        Err(MetadataRejection::UnsupportedFormat)
    ));
    assert_eq!(record.mime.as_deref(), Some("image/gif"));
    assert_eq!(record.extension.as_deref(), Some("gif"));
}

fn png_file(width: u32, height: u32) -> Vec<u8> {
    let image = image::DynamicImage::ImageRgba8(image::ImageBuffer::from_pixel(width, height, image::Rgba([120, 30, 220, 255])));
    let mut cursor = std::io::Cursor::new(Vec::new());
    image.write_to(&mut cursor, image::ImageFormat::Png).expect("write png");
    cursor.into_inner()
}

#[test]
fn raster_record_from_file_bytes() {
    let (mut record, _) = begin_record("tmp/sample.png").expect("supported");
    read_raster_record(&mut record, "tmp/sample.png", &png_file(4, 3), Err("No Exif data found in PNG".to_string()))
        .expect("readable");
    assert_eq!(record.mime.as_deref(), Some("image/png"));
    assert_eq!(record.width, Some(4));
    assert_eq!(record.height, Some(3));
    assert_eq!(record.pixel_count, Some(12));
    assert_eq!(record.channels, Some(4));
    assert_eq!(record.color_space.as_deref(), Some("RGB+Alpha"));
    assert!(record.warnings.is_empty());
}

#[test]
fn png_content_behind_a_jpg_name_is_reported_as_png() {
    let (mut record, _) = begin_record("tmp/photo.jpg").expect("supported");
    read_raster_record(&mut record, "tmp/photo.jpg", &png_file(2, 2), Ok(None)).expect("readable");
    assert_eq!(record.mime.as_deref(), Some("image/png"));
    assert_eq!(record.extension.as_deref(), Some("jpg"));
}

#[test]
fn broken_raster_bytes_fail_to_decode() {
    let (mut record, _) = begin_record("tmp/broken.jpg").expect("supported");
    let outcome = read_raster_record(&mut record, "tmp/broken.jpg", &[1, 2, 3, 4, 5], Ok(None));
    assert!(matches!(outcome, Err(MetadataRejection::Undecodable(_))));
    let (mut record, _) = begin_record("tmp/noext").unwrap_or_else(|_| begin_record("tmp/x.png").expect("supported"));
    let outcome = read_raster_record(&mut record, "tmp/noext", &[1, 2, 3, 4, 5], Ok(None));
    assert!(matches!(outcome, Err(MetadataRejection::UnknownFormat)));
}

#[test]
fn whole_record_from_a_png_file() {

    let bytes = png_file(4, 3);
    let record = record_from_file("tmp/sample.png", bytes.len() as u64, Some("1700000000".to_string()), &bytes, true)
        .expect("readable");
    assert_eq!(record.status, RecordStatus::Success);
    assert_eq!(record.mime.as_deref(), Some("image/png"));
    assert_eq!(record.pixel_count, Some(12));
    assert_eq!(record.file_size_bytes, Some(bytes.len() as u64));
    assert_eq!(record.modified_at.as_deref(), Some("1700000000"));
    assert!(record.capture.is_none());
    assert!(record.warnings.is_empty());
    assert!(matches!(
        record_from_file("tmp/note.txt", 5, None, b"hello", true),
        Err(MetadataRejection::UnsupportedExtension)
    ));
    assert!(matches!(
        record_from_file("tmp/broken.nef", 5, None, &[1, 2, 3, 4, 5], true),
        Err(MetadataRejection::RawExifUnreadable(_))
    ));
}
