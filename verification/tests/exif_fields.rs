use imgtool::metadata::exif::{
    bundle_from_fields, field_text, field_u32, is_no_exif_error, normalize_text, parse_dimensions,
    parse_gps, ExifEntry, ExifFields, ExifValue,
};
use imgtool::metadata::exif_read::exif_bundle_from_bytes;
use imgtool::metadata::model::{GpsAltitude, GpsCoordinate, Ratio, SignedRatio};

fn empty_fields() -> ExifFields {
    ExifFields {
        make: None,
        model: None,
        lens_model: None,
        datetime_original: None,
        exposure_time: None,
        f_number: None,
        photographic_sensitivity: None,
        iso_speed: None,
        focal_length: None,
        orientation: None,
        color_space: None,
        pixel_x_dimension: None,
        pixel_y_dimension: None,
        image_width: None,
        image_length: None,
        gps_latitude: None,
        gps_latitude_ref: None,
        gps_longitude: None,
        gps_longitude_ref: None,
        gps_altitude: None,
        gps_altitude_ref: None,
    }
}

fn text(t: &str) -> Option<ExifEntry> {
    Some(ExifEntry { text: t.to_string(), value: ExifValue::Other })
}

fn entry(t: &str, value: ExifValue) -> Option<ExifEntry> {
    Some(ExifEntry { text: t.to_string(), value })
}

fn ratio(num: u32, denom: u32) -> Ratio {
    Ratio { num, denom }
}

fn with_gps() -> ExifFields {
    let mut f = empty_fields();
    f.make = text("\"Canon\"");
    f.model = text("\"EOS R5\"");
    f.gps_latitude = entry("31 deg 13 min 49.44 sec", ExifValue::Rational(vec![ratio(31, 1), ratio(13, 1), ratio(4944, 100)]));
    f.gps_latitude_ref = text("N");
    f.gps_longitude = entry("121 deg 28 min 25.32 sec", ExifValue::Rational(vec![ratio(121, 1), ratio(28, 1), ratio(2532, 100)]));
    f.gps_longitude_ref = text("E");
    f
}

#[test]
fn text_is_trimmed_and_unquoted() {
    assert_eq!(normalize_text("  \"Canon\"  "), Some("Canon".to_string()));
    assert_eq!(normalize_text("EOS R5"), Some("EOS R5".to_string()));
    assert_eq!(normalize_text("\t\n "), None);
    assert_eq!(normalize_text(""), None);
    assert_eq!(normalize_text("\"\""), None);
    assert_eq!(normalize_text("\""), Some("\"".to_string()));
    assert_eq!(normalize_text("\"a"), Some("\"a".to_string()));
    assert_eq!(normalize_text("\"\"x\"\""), Some("\"x\"".to_string()));
    assert_eq!(normalize_text("\u{3000}値\u{00A0}"), Some("値".to_string()));
}

#[test]
fn no_exif_errors_are_recognised_in_any_case() {
    assert!(is_no_exif_error("No Exif data found in PNG"));
    assert!(is_no_exif_error("TIFF header NOT FOUND"));
    assert!(!is_no_exif_error("Invalid TIFF byte order"));
    assert!(!is_no_exif_error(""));
}

#[test]
fn field_text_reads_the_display_text() {
    assert_eq!(field_text(&None), None);
    assert_eq!(field_text(&text(" f/2.8 ")), Some("f/2.8".to_string()));
    assert_eq!(field_text(&text("   ")), None);
}

#[test]
fn field_u32_takes_the_first_value() {
    assert_eq!(field_u32(&None), None);
    assert_eq!(field_u32(&entry("", ExifValue::Byte(vec![7, 9]))), Some(7));
    assert_eq!(field_u32(&entry("", ExifValue::Short(vec![6000]))), Some(6000));
    assert_eq!(field_u32(&entry("", ExifValue::Long(vec![u32::MAX]))), Some(u32::MAX));
    assert_eq!(field_u32(&entry("", ExifValue::Long(vec![]))), None);
    assert_eq!(field_u32(&entry("", ExifValue::SByte(vec![-1]))), None);
    assert_eq!(field_u32(&entry("", ExifValue::SShort(vec![12]))), Some(12));
    assert_eq!(field_u32(&entry("", ExifValue::SLong(vec![i32::MIN]))), None);
    assert_eq!(field_u32(&entry("", ExifValue::SLong(vec![i32::MAX]))), Some(i32::MAX as u32));
    assert_eq!(field_u32(&entry("", ExifValue::Rational(vec![ratio(7, 2)]))), Some(3));
    assert_eq!(field_u32(&entry("", ExifValue::Rational(vec![ratio(7, 0)]))), None);
    assert_eq!(field_u32(&entry("", ExifValue::SRational(vec![SignedRatio { num: -9, denom: -2 }]))), Some(4));
    assert_eq!(field_u32(&entry("", ExifValue::SRational(vec![SignedRatio { num: -9, denom: 2 }]))), None);
    assert_eq!(field_u32(&entry("", ExifValue::SRational(vec![SignedRatio { num: 0, denom: -3 }]))), Some(0));
    assert_eq!(field_u32(&entry("", ExifValue::SRational(vec![SignedRatio { num: i32::MIN, denom: -1 }]))), Some(2_147_483_648));
    assert_eq!(field_u32(&entry("6000", ExifValue::Other)), None);
}

#[test]
fn dimensions_prefer_pixel_dimensions_and_must_be_positive() {
    let mut f = empty_fields();
    assert_eq!(parse_dimensions(&f), None);
    f.image_width = entry("", ExifValue::Long(vec![4000]));
    f.image_length = entry("", ExifValue::Long(vec![3000]));
    assert_eq!(parse_dimensions(&f), Some((4000, 3000)));
    f.pixel_x_dimension = entry("", ExifValue::Short(vec![2]));
    f.pixel_y_dimension = entry("", ExifValue::Short(vec![2]));
    assert_eq!(parse_dimensions(&f), Some((2, 2)));
    f.pixel_y_dimension = entry("", ExifValue::Short(vec![0]));
    assert_eq!(parse_dimensions(&f), None);
}

#[test]
fn gps_coordinates_keep_their_rationals_and_hemisphere() {
    let gps = parse_gps(&with_gps()).expect("gps");
    assert_eq!(
        gps.latitude,
        Some(GpsCoordinate { degrees: ratio(31, 1), minutes: ratio(13, 1), seconds: ratio(4944, 100), negative: false })
    );
    assert_eq!(gps.longitude.map(|c| c.negative), Some(false));
    assert_eq!(gps.altitude, None);

    let mut south = with_gps();
    south.gps_latitude_ref = text(" s");
    south.gps_longitude_ref = text("West");
    let gps = parse_gps(&south).expect("gps");
    assert_eq!(gps.latitude.map(|c| c.negative), Some(true));
    assert_eq!(gps.longitude.map(|c| c.negative), Some(true));
}

#[test]
fn gps_needs_three_valid_rationals() {
    let mut f = empty_fields();
    f.gps_latitude = entry("", ExifValue::Rational(vec![ratio(31, 1), ratio(13, 1)]));
    assert!(parse_gps(&f).is_none());
    f.gps_latitude = entry("", ExifValue::Rational(vec![ratio(31, 1), ratio(13, 0), ratio(1, 1)]));
    assert!(parse_gps(&f).is_none());
    f.gps_altitude = entry("", ExifValue::Rational(vec![ratio(105, 10)]));
    f.gps_altitude_ref = entry("", ExifValue::Byte(vec![1]));
    let gps = parse_gps(&f).expect("altitude only");
    assert_eq!(gps.latitude, None);
    assert_eq!(gps.altitude, Some(GpsAltitude { meters: ratio(105, 10), below_sea_level: true }));
    f.gps_altitude_ref = entry("", ExifValue::Short(vec![1]));
    assert_eq!(parse_gps(&f).and_then(|g| g.altitude).map(|a| a.below_sea_level), Some(false));
}

#[test]
fn no_gps_flag_removes_gps_payload() {
    let bundle = bundle_from_fields(&with_gps(), false).expect("bundle");
    let capture = bundle.capture.expect("capture");
    assert_eq!(capture.camera_make.as_deref(), Some("Canon"));
    assert!(capture.gps.is_none());

    let with = bundle_from_fields(&with_gps(), true).expect("bundle");
    let with_capture = with.capture.expect("capture");
    assert!(with_capture.gps.is_some());
    assert_eq!(with_capture.camera_make, capture.camera_make);
    assert_eq!(with_capture.camera_model, capture.camera_model);
    assert_eq!(with.orientation, bundle.orientation);
    assert_eq!(with.dimensions, bundle.dimensions);
}

#[test]
fn gps_alone_makes_a_capture_only_when_included() {
    let mut f = empty_fields();
    f.gps_altitude = entry("", ExifValue::Rational(vec![ratio(3, 1)]));
    assert!(bundle_from_fields(&f, false).is_none());
    let bundle = bundle_from_fields(&f, true).expect("bundle");
    assert!(bundle.capture.is_some());
    assert!(bundle.orientation.is_none());
    assert!(bundle.dimensions.is_none());
}

#[test]
fn iso_falls_back_to_iso_speed() {
    let mut f = empty_fields();
    f.iso_speed = text("400");
    let capture = bundle_from_fields(&f, true).expect("bundle").capture.expect("capture");
    assert_eq!(capture.iso.as_deref(), Some("400"));
    f.photographic_sensitivity = text("100");
    let capture = bundle_from_fields(&f, true).expect("bundle").capture.expect("capture");
    assert_eq!(capture.iso.as_deref(), Some("100"));
}

#[test]
fn fields_without_content_give_no_bundle() {
    let mut f = empty_fields();
    assert!(bundle_from_fields(&f, true).is_none());
    f.make = text("  ");
    f.orientation = text("\"\"");
    assert!(bundle_from_fields(&f, true).is_none());
    f.orientation = text("Row 0 at top and column 0 at left");
    f.color_space = text("sRGB");
    let bundle = bundle_from_fields(&f, true).expect("bundle");
    assert_eq!(bundle.orientation.as_deref(), Some("Row 0 at top and column 0 at left"));
    assert_eq!(bundle.color_space.as_deref(), Some("sRGB"));
    assert!(bundle.capture.is_none());
}

/// A little-endian TIFF block whose first IFD holds one ASCII field.
fn tiff_with_ascii(tag: u16, text: &str) -> Vec<u8> {
    let mut data = text.as_bytes().to_vec();
    data.push(0);
    let mut b = vec![b'I', b'I', 42, 0, 8, 0, 0, 0];
    b.extend_from_slice(&1u16.to_le_bytes());
    b.extend_from_slice(&tag.to_le_bytes());
    b.extend_from_slice(&2u16.to_le_bytes());
    b.extend_from_slice(&(data.len() as u32).to_le_bytes());
    b.extend_from_slice(&26u32.to_le_bytes());
    b.extend_from_slice(&0u32.to_le_bytes());
    b.extend_from_slice(&data);
    b
}

#[test]
fn exif_block_is_read_from_bytes() {

    let bundle = exif_bundle_from_bytes(&tiff_with_ascii(0x10f, "Canon"), true).expect("readable").expect("bundle");
    let capture = bundle.capture.expect("capture");
    assert_eq!(capture.camera_make.as_deref(), Some("Canon"));
    assert!(capture.camera_model.is_none());
    assert!(bundle.dimensions.is_none());
}

#[test]
fn bytes_without_exif_give_the_readers_error() {

    let err = exif_bundle_from_bytes(&[1, 2, 3, 4, 5], true).expect_err("no exif");
    assert!(!err.is_empty());
    let png = {
        let image = image::DynamicImage::new_rgb8(2, 2);
        let mut cursor = std::io::Cursor::new(Vec::new());
        image.write_to(&mut cursor, image::ImageFormat::Png).expect("png");
        cursor.into_inner()
    };
    let err = exif_bundle_from_bytes(&png, true).expect_err("no exif");
    assert!(is_no_exif_error(&err), "{err}");
}
