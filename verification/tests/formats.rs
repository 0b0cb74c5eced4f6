use imgtool::metadata::format::{
    format_info_from_extension, format_info_from_path, has_supported_extension,
    is_supported_raster_format, raster_format_mime_and_ext, FileKind, RasterFormat,
};
use imgtool::paths::{is_hidden_entry, lowercase_extension};
use imgtool::raster::{
    check_raster_extension, is_raster_extension, validate_input_extension, validate_input_path,
    ExtensionRejection, PathRejection,
};
use imgtool::paths::PathKind;

#[test]
fn jpeg_extension_in_any_case_is_a_raster_jpeg() {
    let info = format_info_from_path("photos/trip/IMG_0001.JPG").expect("known format");
    assert_eq!(info.kind, FileKind::Raster);
    assert_eq!(info.mime, "image/jpeg");
    assert_eq!(info.canonical_ext, "jpg");
    let info = format_info_from_path("a.jpeg").expect("known format");
    assert_eq!(info.canonical_ext, "jpg");
}

#[test]
fn tif_maps_to_canonical_tiff() {
    let info = format_info_from_extension("Tif").expect("known format");
    assert_eq!(info.kind, FileKind::Raster);
    assert_eq!(info.mime, "image/tiff");
    assert_eq!(info.canonical_ext, "tiff");
}

#[test]
fn raw_extensions_are_listed_with_their_mime_types() {
    let cases = [
        ("x.arw", "image/x-sony-arw", "arw"),
        ("x.SR2", "image/x-sony-sr2", "sr2"),
        ("x.srf", "image/x-sony-srf", "srf"),
        ("x.nef", "image/x-nikon-nef", "nef"),
        ("x.nrw", "image/x-nikon-nrw", "nrw"),
        ("x.cr2", "image/x-canon-cr2", "cr2"),
        ("x.Cr3", "image/x-canon-cr3", "cr3"),
        ("x.crw", "image/x-canon-crw", "crw"),
        ("x.dng", "image/x-adobe-dng", "dng"),
    ];
    for (path, mime, ext) in cases {
        let info = format_info_from_path(path).expect("known RAW format");
        assert_eq!(info.kind, FileKind::Raw);
        assert_eq!(info.mime, mime);
        assert_eq!(info.canonical_ext, ext);
    }
}

#[test]
fn unknown_or_missing_extensions_are_unsupported() {
    assert!(format_info_from_path("notes/note.txt").is_none());
    assert!(format_info_from_path("README").is_none());
    assert!(format_info_from_path(".png").is_none());
    assert!(!has_supported_extension("archive.tar.gz"));
    assert!(has_supported_extension("dir.d/picture.webp"));
    assert!(has_supported_extension("scan.GIF"));
}

#[test]
fn decoded_formats_report_mime_and_extension() {
    assert_eq!(raster_format_mime_and_ext(RasterFormat::Jpeg), Some(("image/jpeg", "jpg")));
    assert_eq!(raster_format_mime_and_ext(RasterFormat::Png), Some(("image/png", "png")));
    assert_eq!(raster_format_mime_and_ext(RasterFormat::WebP), Some(("image/webp", "webp")));
    assert_eq!(raster_format_mime_and_ext(RasterFormat::Tiff), Some(("image/tiff", "tiff")));
    assert_eq!(raster_format_mime_and_ext(RasterFormat::Bmp), Some(("image/bmp", "bmp")));
    assert_eq!(raster_format_mime_and_ext(RasterFormat::Gif), Some(("image/gif", "gif")));
    assert_eq!(raster_format_mime_and_ext(RasterFormat::Other), None);
    assert!(is_supported_raster_format(RasterFormat::Gif));
    assert!(!is_supported_raster_format(RasterFormat::Other));
}

#[test]
fn extension_is_lowercased_and_taken_after_the_last_dot() {
    assert_eq!(lowercase_extension("a/b/Photo.Final.JPEG"), Some("jpeg".to_string()));
    assert_eq!(lowercase_extension("a/b/photo"), None);
    assert_eq!(lowercase_extension("a/b/.hidden"), None);
}

#[test]
fn hidden_entries_start_with_a_dot_below_the_root() {
    assert!(is_hidden_entry(1, Some(".hidden.png")));
    assert!(is_hidden_entry(3, Some(".git")));
    assert!(!is_hidden_entry(1, Some("visible.png")));
    assert!(!is_hidden_entry(0, Some(".root")));
    assert!(!is_hidden_entry(2, None));
    assert!(!is_hidden_entry(2, Some("")));
}

#[test]
fn directory_scan_skips_hidden_by_default() {
    let entries = [(1usize, "visible.png"), (1usize, ".hidden.png")];
    let count = |include_hidden: bool| {
        entries
            .iter()
            .filter(|(depth, name)| include_hidden || !is_hidden_entry(*depth, Some(name)))
            .filter(|(_, name)| has_supported_extension(name))
            .count()
    };
    assert_eq!(count(false), 1);
    assert_eq!(count(true), 2);
}

#[test]
fn raster_extensions_are_the_eight_listed() {
    for ext in ["jpg", "jpeg", "png", "webp", "tiff", "tif", "bmp", "gif"] {
        assert!(is_raster_extension(ext));
    }
    for ext in ["JPG", "arw", "avif", "txt", ""] {
        assert!(!is_raster_extension(ext));
    }
}

#[test]
fn input_path_must_be_an_existing_file() {
    assert_eq!(validate_input_path(PathKind::File), Ok(()));
    assert_eq!(validate_input_path(PathKind::Missing), Err(PathRejection::Missing));
    assert_eq!(validate_input_path(PathKind::Directory), Err(PathRejection::NotFile));
    assert_eq!(validate_input_path(PathKind::Other), Err(PathRejection::NotFile));
}

#[test]
fn input_extension_checks() {
    assert_eq!(validate_input_extension("in/photo.PNG"), Ok(()));
    assert_eq!(validate_input_extension("in/photo"), Err(ExtensionRejection::Missing));
    assert_eq!(validate_input_extension("in/photo.txt"), Err(ExtensionRejection::Unsupported));
    assert_eq!(check_raster_extension(Some("TIF")), Ok(()));
    assert_eq!(check_raster_extension(Some("heic")), Err(ExtensionRejection::Unsupported));
    assert_eq!(check_raster_extension(None), Err(ExtensionRejection::Missing));
}

#[test]
fn raster_extensions_are_exactly_the_raster_table_entries() {
    for ext in ["jpg", "jpeg", "png", "webp", "tiff", "tif", "bmp", "gif", "arw", "dng", "txt"] {
        let kind = format_info_from_extension(ext).map(|i| i.kind);
        assert_eq!(is_raster_extension(ext), kind == Some(FileKind::Raster), "{ext}");
    }
}

#[test]
fn decoded_formats_agree_with_the_extension_table() {
    for format in [RasterFormat::Jpeg, RasterFormat::Png, RasterFormat::WebP, RasterFormat::Tiff, RasterFormat::Bmp, RasterFormat::Gif] {
        let (mime, ext) = raster_format_mime_and_ext(format).expect("listed");
        let info = format_info_from_extension(ext).expect("in table");
        assert_eq!(info.kind, FileKind::Raster);
        assert_eq!(info.mime, mime);
        assert_eq!(info.canonical_ext, ext);
    }
}

#[test]
fn extension_case_does_not_change_the_format() {
    for (upper, lower) in [("a.JpG", "a.jpg"), ("b.NEF", "b.nef"), ("c.TIF", "c.tif"), ("d.TXT", "d.txt")] {
        let u = format_info_from_path(upper).map(|i| (i.kind, i.mime, i.canonical_ext));
        let l = format_info_from_path(lower).map(|i| (i.kind, i.mime, i.canonical_ext));
        assert_eq!(u, l);
    }
}

#[test]
fn canonical_extensions_lead_back_to_their_entry() {
    for ext in ["jpg", "JPEG", "png", "webp", "TIF", "tiff", "bmp", "gif", "arw", "sr2", "srf", "nef", "nrw", "cr2", "cr3", "crw", "dng"] {
        let info = format_info_from_extension(ext).expect("in table");
        assert_eq!(info.canonical_ext, info.canonical_ext.to_ascii_lowercase());
        let back = format_info_from_extension(info.canonical_ext).expect("canonical in table");
        assert_eq!((back.kind, back.mime, back.canonical_ext), (info.kind, info.mime, info.canonical_ext));
    }
}
