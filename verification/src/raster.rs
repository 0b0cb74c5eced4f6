//! The raster inputs that the resize, compress, convert and batch
//! operations accept: an existing file whose extension names a raster
//! format.
use vstd::prelude::*;
use crate::paths::{file_extension, path_extension, PathKind};
use crate::text::{ascii_lowercase, chars_match, chars_of, to_ascii_lowercase};

verus! {

/// `jpg`, `jpeg`, `png`, `webp`, `tiff`, `tif`, `bmp` or `gif` (lower case).
pub open spec fn raster_extension(e: Seq<char>) -> bool {
    ||| e == "jpg"@
    ||| e == "jpeg"@
    ||| e == "png"@
    ||| e == "webp"@
    ||| e == "tiff"@
    ||| e == "tif"@
    ||| e == "bmp"@
    ||| e == "gif"@
}

/// Whether the lower-case extension `ext` names a supported raster format.
pub fn is_raster_extension(ext: &str) -> (r: bool)
    ensures
        r == raster_extension(ext@),
{
    let v = chars_of(ext);
    chars_match(&v, "jpg") || chars_match(&v, "jpeg") || chars_match(&v, "png") || chars_match(
        &v,
        "webp",
    ) || chars_match(&v, "tiff") || chars_match(&v, "tif") || chars_match(&v, "bmp")
        || chars_match(&v, "gif")
}

/// Why an input path is refused.
#[derive(Clone, Copy, Debug, PartialEq, Eq, Structural)]
pub enum PathRejection {
    Missing,
    NotFile,
}

/// Why an extension is refused.
#[derive(Clone, Copy, Debug, PartialEq, Eq, Structural)]
pub enum ExtensionRejection {
    Missing,
    Unsupported,
}

pub open spec fn input_path_verdict(kind: PathKind) -> Result<(), PathRejection> {
    match kind {
        PathKind::Missing => Err(PathRejection::Missing),
        PathKind::File => Ok(()),
        _ => Err(PathRejection::NotFile),
    }
}

/// The verdict on a raw extension `ext`, as the path spells it.
pub open spec fn raster_extension_verdict(ext: Option<Seq<char>>) -> Result<(), ExtensionRejection> {
    match ext {
        None => Err(ExtensionRejection::Missing),
        Some(e) => if raster_extension(ascii_lowercase(e)) {
            Ok(())
        } else {
            Err(ExtensionRejection::Unsupported)
        },
    }
}

pub open spec fn opt_view(s: Option<&str>) -> Option<Seq<char>> {
    match s {
        Some(e) => Some(e@),
        None => None,
    }
}

/// The input must exist and be a file.
pub fn validate_input_path(kind: PathKind) -> (r: Result<(), PathRejection>)
    ensures
        r == input_path_verdict(kind),
{
    match kind {
        PathKind::Missing => Err(PathRejection::Missing),
        PathKind::File => Ok(()),
        _ => Err(PathRejection::NotFile),
    }
}

/// The extension `ext` (as the path spells it) must name a raster format.
pub fn check_raster_extension(ext: Option<&str>) -> (r: Result<(), ExtensionRejection>)
    ensures
        r == raster_extension_verdict(opt_view(ext)),
{
    match ext {
        None => Err(ExtensionRejection::Missing),
        Some(e) => {
            let lower = to_ascii_lowercase(e);
            if is_raster_extension(lower.as_str()) {
                Ok(())
            } else {
                Err(ExtensionRejection::Unsupported)
            }
        },
    }
}

/// The extension of `path` must name a raster format.
pub fn validate_input_extension(path: &str) -> (r: Result<(), ExtensionRejection>)
    ensures
        r == raster_extension_verdict(path_extension(path@)),
{
    match file_extension(path) {
        Some(e) => check_raster_extension(Some(e.as_str())),
        None => check_raster_extension(None),
    }
}

/// Law: an extension is accepted as a raster input exactly when, in lower
/// case, it is one of `jpg`, `jpeg`, `png`, `webp`, `tiff`, `tif`, `bmp`,
/// `gif`; so extensions that differ only in ASCII case get the same verdict
/// (`JPG` like `jpg`), and a path without an extension is refused as such.
pub proof fn law_raster_extension_check(e: Seq<char>, e2: Seq<char>)
    ensures
        raster_extension_verdict(Some(e)) is Ok <==> ({
            let l = ascii_lowercase(e);
            l == "jpg"@ || l == "jpeg"@ || l == "png"@ || l == "webp"@ || l == "tiff"@ || l == "tif"@
                || l == "bmp"@ || l == "gif"@
        }),
        raster_extension_verdict(Some(e)) is Err ==> raster_extension_verdict(Some(e)) == Err::<(), ExtensionRejection>(ExtensionRejection::Unsupported),
        ascii_lowercase(e) == ascii_lowercase(e2) ==> raster_extension_verdict(Some(e)) == raster_extension_verdict(Some(e2)),
        raster_extension_verdict(None) == Err::<(), ExtensionRejection>(ExtensionRejection::Missing),
{
}

} // verus!
