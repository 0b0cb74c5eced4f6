//! Scaling an image: the resampling filters, the checks on the paths of a
//! request, and resampling and encoding an image to a given size. The scale
//! factor itself is a floating-point number: the caller checks it and turns
//! it into that size.
use vstd::prelude::*;
use crate::paths::{file_extension, path_extension, PathKind};
use crate::raster::{
    raster_extension,
    check_raster_extension, input_path_verdict, raster_extension_verdict, validate_input_path,
    ExtensionRejection, PathRejection,
};
use crate::text::{ascii_lowercase, chars_match, chars_of, opt_str};
use crate::codec::{decode_failure, decode_image, decoded_dimensions_of, encode_resized, image_dimensions, resized_encoding};

verus! {

/// The resampling filters offered for resizing.
#[derive(Clone, Copy, Debug, PartialEq, Eq, Structural)]
pub enum ResizeFilter {
    Nearest,
    Triangle,
    CatmullRom,
    Gaussian,
    Lanczos3,
}

/// The filter selected by a command-line name.
pub open spec fn filter_named(name: Seq<char>) -> Option<ResizeFilter> {
    if name == "nearest"@ {
        Some(ResizeFilter::Nearest)
    } else if name == "triangle"@ {
        Some(ResizeFilter::Triangle)
    } else if name == "catmullrom"@ {
        Some(ResizeFilter::CatmullRom)
    } else if name == "gaussian"@ {
        Some(ResizeFilter::Gaussian)
    } else if name == "lanczos3"@ {
        Some(ResizeFilter::Lanczos3)
    } else {
        None
    }
}

impl ResizeFilter {
    /// The filter used when none is named.
    pub fn default_filter() -> (r: ResizeFilter)
        ensures
            r == ResizeFilter::Lanczos3,
    {
        ResizeFilter::Lanczos3
    }

    /// The filter called `name` (`nearest`, `triangle`, `catmullrom`,
    /// `gaussian` or `lanczos3`).
    pub fn from_name(name: &str) -> (r: Option<ResizeFilter>)
        ensures
            r == filter_named(name@),
    {
        let v = chars_of(name);
        if chars_match(&v, "nearest") {
            Some(ResizeFilter::Nearest)
        } else if chars_match(&v, "triangle") {
            Some(ResizeFilter::Triangle)
        } else if chars_match(&v, "catmullrom") {
            Some(ResizeFilter::CatmullRom)
        } else if chars_match(&v, "gaussian") {
            Some(ResizeFilter::Gaussian)
        } else if chars_match(&v, "lanczos3") {
            Some(ResizeFilter::Lanczos3)
        } else {
            None
        }
    }
}

/// Why a resize request is refused before any image is read.
#[derive(Clone, Copy, Debug, PartialEq, Eq, Structural)]
pub enum ResizeRejection {
    InputPath(PathRejection),
    InputExtension(ExtensionRejection),
    OutputExtension(ExtensionRejection),
}

/// The verdict on the paths of a request, checked in this order: the input
/// path, the input extension, the output extension.
pub open spec fn resize_verdict(kind: PathKind, input: Seq<char>, output: Seq<char>) -> Result<(), ResizeRejection> {
    match input_path_verdict(kind) {
        Err(e) => Err(ResizeRejection::InputPath(e)),
        Ok(_) => match raster_extension_verdict(path_extension(input)) {
            Err(e) => Err(ResizeRejection::InputExtension(e)),
            Ok(_) => match raster_extension_verdict(path_extension(output)) {
                Err(e) => Err(ResizeRejection::OutputExtension(e)),
                Ok(_) => Ok(()),
            },
        },
    }
}

/// The extension of the input path must name a raster format.
pub fn validate_extension(path: &str) -> (r: Result<(), ResizeRejection>)
    ensures
        r == match raster_extension_verdict(path_extension(path@)) {
            Ok(_) => Ok(()),
            Err(e) => Err(ResizeRejection::InputExtension(e)),
        },
{
    let checked = match file_extension(path) {
        Some(e) => check_raster_extension(Some(e.as_str())),
        None => check_raster_extension(None),
    };
    match checked {
        Ok(_) => Ok(()),
        Err(e) => Err(ResizeRejection::InputExtension(e)),
    }
}

/// The extension of the output path must name a raster format.
pub fn validate_output_extension(path: &str) -> (r: Result<(), ResizeRejection>)
    ensures
        r == match raster_extension_verdict(path_extension(path@)) {
            Ok(_) => Ok(()),
            Err(e) => Err(ResizeRejection::OutputExtension(e)),
        },
{
    let checked = match file_extension(path) {
        Some(e) => check_raster_extension(Some(e.as_str())),
        None => check_raster_extension(None),
    };
    match checked {
        Ok(_) => Ok(()),
        Err(e) => Err(ResizeRejection::OutputExtension(e)),
    }
}

/// All path checks on a request, given what the file system reports for
/// the input path.
pub fn check_resize_paths(input_kind: PathKind, input: &str, output: &str) -> (r: Result<(), ResizeRejection>)
    ensures
        r == resize_verdict(input_kind, input@, output@),
{
    if let Err(e) = validate_input_path(input_kind) {
        return Err(ResizeRejection::InputPath(e));
    }
    validate_extension(input)?;
    validate_output_extension(output)
}

/// Why a resize fails after its scale was checked.
#[derive(Debug)]
pub enum ResizeError {
    /// The paths are refused before the image is read.
    Rejected(ResizeRejection),
    /// The input bytes do not decode; the decoder's error text.
    Decode(String),
    /// Resampling or encoding failed; the encoder's error text.
    Encode(String),
}

/// Resizes the image whose encoded bytes are `bytes` (the contents of the
/// file at `input`, which the file system reports as `input_kind`) to
/// `width` x `height` with `filter`, encoded in the format the extension of
/// `output` names. `Ok` carries the output bytes and the input's width and
/// height.
pub fn resize_bytes(
    input_kind: PathKind,
    input: &str,
    output: &str,
    bytes: &[u8],
    width: u32,
    height: u32,
    filter: ResizeFilter,
) -> (r: Result<(Vec<u8>, (u32, u32)), ResizeError>)
    requires
        width >= 1,
        height >= 1,
    ensures
        match resize_verdict(input_kind, input@, output@) {
            Err(e) => r matches Err(ResizeError::Rejected(x)) && x == e,
            Ok(_) => {
                let ext = path_extension(input@);
                match decode_failure(bytes@, ext) {
                    Some(m) => r matches Err(ResizeError::Decode(x)) && x@ == m,
                    None => match resized_encoding(bytes@, ext, width, height, filter, path_extension(output@)->0) {
                        Ok(b) => r matches Ok((o, d)) && o@ == b && d == decoded_dimensions_of(bytes@, ext),
                        Err(m) => r matches Err(ResizeError::Encode(x)) && x@ == m,
                    },
                }
            },
        },
{
    if let Err(e) = check_resize_paths(input_kind, input, output) {
        return Err(ResizeError::Rejected(e));
    }
    let out_ext = match file_extension(output) {
        Some(e) => e,
        None => return Err(ResizeError::Rejected(ResizeRejection::OutputExtension(ExtensionRejection::Missing))),
    };
    let ext = file_extension(input);
    let image = match decode_image(bytes, opt_str(&ext)) {
        Ok(d) => d,
        Err(m) => return Err(ResizeError::Decode(m)),
    };
    let dims = image_dimensions(&image);
    match encode_resized(&image, width, height, filter, out_ext.as_str()) {
        Ok(b) => Ok((b, dims)),
        Err(m) => Err(ResizeError::Encode(m)),
    }
}

/// Law: the checks on a resize request do not depend on the ASCII case of
/// the input's extension: two input paths whose extensions agree in lower
/// case (or that both have none) get the same verdict.
pub proof fn law_resize_check_ignores_extension_case(kind: PathKind, input: Seq<char>, input2: Seq<char>, output: Seq<char>)
    requires
        match (path_extension(input), path_extension(input2)) {
            (Some(a), Some(b)) => ascii_lowercase(a) == ascii_lowercase(b),
            (None, None) => true,
            _ => false,
        },
    ensures
        resize_verdict(kind, input, output) == resize_verdict(kind, input2, output),
{
}

/// Law: a resize request is accepted exactly when the input is an existing
/// file and both the input's and the output's extensions, in lower case,
/// name raster formats.
pub proof fn law_resize_accepts_raster_paths(kind: PathKind, input: Seq<char>, output: Seq<char>)
    ensures
        resize_verdict(kind, input, output) is Ok <==> {
            &&& kind == PathKind::File
            &&& path_extension(input) matches Some(a) && raster_extension(ascii_lowercase(a))
            &&& path_extension(output) matches Some(b) && raster_extension(ascii_lowercase(b))
        },
{
}

} // verus!
