//! Changing an image's file format at the same resolution: the checks on a
//! request and the choice of encoder.
use vstd::prelude::*;
use crate::codec::{
    decode_failure, decode_image, decoded_dimensions_of, encode_jpeg, encode_png, encode_still,
    encode_webp, image_dimensions, jpeg_encoding, png_encoding, still_encoding, webp_encoding,
    DecodedImage, StillFormat,
};
use crate::paths::{file_extension, path_extension, PathKind};
use crate::raster::{
    input_path_verdict, opt_view, raster_extension_verdict, validate_input_extension,
    validate_input_path, ExtensionRejection, PathRejection,
};
use crate::text::{lemma_lowercase_idempotent, ascii_lowercase, chars_match, chars_of, opt_str, to_ascii_lowercase};

verus! {

/// The encodings that conversion writes.
#[derive(Clone, Copy, Debug, PartialEq, Eq, Structural)]
pub enum OutputFormat {
    Jpeg,
    Png,
    Webp,
    Bmp,
    Gif,
    Tiff,
}

/// Why a conversion request is refused before any image is read.
#[derive(Clone, Copy, Debug, PartialEq, Eq, Structural)]
pub enum ConvertRejection {
    InputPath(PathRejection),
    InputExtension(ExtensionRejection),
    QualityOutOfRange,
    OutputExtension(ExtensionRejection),
}

/// Why encoding failed; the text is the encoder's error message.
#[derive(Debug)]
pub enum ConvertFailure {
    Jpeg(String),
    Png(String),
    Webp(String),
    Still(StillFormat, String),
}

/// A conversion request.
#[derive(Debug)]
pub struct ConvertOptions {
    pub input: String,
    pub output: String,
    pub quality: u8,
}

/// What a finished conversion reports.
#[derive(Debug)]
pub struct ConvertResult {
    pub input: String,
    pub output: String,
    pub width: u32,
    pub height: u32,
    pub input_size_bytes: u64,
    pub output_size_bytes: u64,
    pub output_format: &'static str,
    pub applied_quality: Option<u8>,
}

/// The encoding named by a raw output extension `ext`.
pub open spec fn output_format_verdict(ext: Option<Seq<char>>) -> Result<OutputFormat, ConvertRejection> {
    match ext {
        None => Err(ConvertRejection::OutputExtension(ExtensionRejection::Missing)),
        Some(e) => {
            let l = ascii_lowercase(e);
            if l == "jpg"@ || l == "jpeg"@ {
                Ok(OutputFormat::Jpeg)
            } else if l == "png"@ {
                Ok(OutputFormat::Png)
            } else if l == "webp"@ {
                Ok(OutputFormat::Webp)
            } else if l == "bmp"@ {
                Ok(OutputFormat::Bmp)
            } else if l == "gif"@ {
                Ok(OutputFormat::Gif)
            } else if l == "tiff"@ || l == "tif"@ {
                Ok(OutputFormat::Tiff)
            } else {
                Err(ConvertRejection::OutputExtension(ExtensionRejection::Unsupported))
            }
        },
    }
}

/// The verdict on a request, checks taken in this order: the input path,
/// its extension, the quality, and the output extension.
pub open spec fn convert_verdict(kind: PathKind, input: Seq<char>, output: Seq<char>, quality: u8) -> Result<
    OutputFormat,
    ConvertRejection,
> {
    match input_path_verdict(kind) {
        Err(e) => Err(ConvertRejection::InputPath(e)),
        Ok(_) => match raster_extension_verdict(path_extension(input)) {
            Err(e) => Err(ConvertRejection::InputExtension(e)),
            Ok(_) => if !(1 <= quality <= 100) {
                Err(ConvertRejection::QualityOutOfRange)
            } else {
                output_format_verdict(path_extension(output))
            },
        },
    }
}

/// The name under which each output format is reported.
pub open spec fn format_name(format: OutputFormat) -> Seq<char> {
    match format {
        OutputFormat::Jpeg => "jpeg"@,
        OutputFormat::Png => "png"@,
        OutputFormat::Webp => "webp"@,
        OutputFormat::Bmp => "bmp"@,
        OutputFormat::Gif => "gif"@,
        OutputFormat::Tiff => "tiff"@,
    }
}

/// The encoding named by the output extension `ext` (as the path spells it).
pub fn output_format_of(ext: Option<&str>) -> (r: Result<OutputFormat, ConvertRejection>)
    ensures
        r == output_format_verdict(opt_view(ext)),
{
    match ext {
        None => Err(ConvertRejection::OutputExtension(ExtensionRejection::Missing)),
        Some(e) => {
            let lower = to_ascii_lowercase(e);
            let v = chars_of(lower.as_str());
            if chars_match(&v, "jpg") || chars_match(&v, "jpeg") {
                Ok(OutputFormat::Jpeg)
            } else if chars_match(&v, "png") {
                Ok(OutputFormat::Png)
            } else if chars_match(&v, "webp") {
                Ok(OutputFormat::Webp)
            } else if chars_match(&v, "bmp") {
                Ok(OutputFormat::Bmp)
            } else if chars_match(&v, "gif") {
                Ok(OutputFormat::Gif)
            } else if chars_match(&v, "tiff") || chars_match(&v, "tif") {
                Ok(OutputFormat::Tiff)
            } else {
                Err(ConvertRejection::OutputExtension(ExtensionRejection::Unsupported))
            }
        },
    }
}

/// The encoding named by the extension of the output path.
pub fn infer_output_format(path: &str) -> (r: Result<OutputFormat, ConvertRejection>)
    ensures
        r == output_format_verdict(path_extension(path@)),
{
    match file_extension(path) {
        Some(e) => output_format_of(Some(e.as_str())),
        None => output_format_of(None),
    }
}

/// All checks on a request, given what the file system reports for the
/// input path; `Ok` carries the output encoding.
pub fn check_convert_request(input_kind: PathKind, options: &ConvertOptions) -> (r: Result<
    OutputFormat,
    ConvertRejection,
>)
    ensures
        r == convert_verdict(input_kind, options.input@, options.output@, options.quality),
{
    if let Err(e) = validate_input_path(input_kind) {
        return Err(ConvertRejection::InputPath(e));
    }
    if let Err(e) = validate_input_extension(options.input.as_str()) {
        return Err(ConvertRejection::InputExtension(e));
    }
    if !(1 <= options.quality && options.quality <= 100) {
        return Err(ConvertRejection::QualityOutOfRange);
    }
    infer_output_format(options.output.as_str())
}

/// The reported name of an output format.
pub fn output_format_name(format: OutputFormat) -> (r: &'static str)
    ensures
        r@ == format_name(format),
{
    match format {
        OutputFormat::Jpeg => "jpeg",
        OutputFormat::Png => "png",
        OutputFormat::Webp => "webp",
        OutputFormat::Bmp => "bmp",
        OutputFormat::Gif => "gif",
        OutputFormat::Tiff => "tiff",
    }
}

/// The encoding in `format` of the image decoded from `src` with the hint
/// `ext`; only JPEG takes `quality`.
pub open spec fn encoding_in(src: Seq<u8>, ext: Option<Seq<char>>, format: OutputFormat, quality: u8) -> Result<
    Seq<u8>,
    Seq<char>,
> {
    match format {
        OutputFormat::Jpeg => jpeg_encoding(src, ext, quality),
        OutputFormat::Png => png_encoding(src, ext),
        OutputFormat::Webp => webp_encoding(src, ext),
        OutputFormat::Bmp => still_encoding(src, ext, StillFormat::Bmp),
        OutputFormat::Gif => still_encoding(src, ext, StillFormat::Gif),
        OutputFormat::Tiff => still_encoding(src, ext, StillFormat::Tiff),
    }
}

/// `e` is the failure reported for `format` when its encoder fails with
/// the text `m`.
pub open spec fn failure_of(format: OutputFormat, e: ConvertFailure, m: Seq<char>) -> bool {
    match (format, e) {
        (OutputFormat::Jpeg, ConvertFailure::Jpeg(x)) => x@ == m,
        (OutputFormat::Png, ConvertFailure::Png(x)) => x@ == m,
        (OutputFormat::Webp, ConvertFailure::Webp(x)) => x@ == m,
        (OutputFormat::Bmp, ConvertFailure::Still(StillFormat::Bmp, x)) => x@ == m,
        (OutputFormat::Gif, ConvertFailure::Still(StillFormat::Gif, x)) => x@ == m,
        (OutputFormat::Tiff, ConvertFailure::Still(StillFormat::Tiff, x)) => x@ == m,
        _ => false,
    }
}

/// `r` is the conversion of the image decoded from `src` with the hint
/// `ext` into `format`: the encoder's bytes, the format's name and the
/// quality (JPEG only), or the encoder's failure.
pub open spec fn converted(
    src: Seq<u8>,
    ext: Option<Seq<char>>,
    format: OutputFormat,
    quality: u8,
    r: Result<(Vec<u8>, &'static str, Option<u8>), ConvertFailure>,
) -> bool {
    match r {
        Ok((b, name, applied)) => {
            &&& encoding_in(src, ext, format, quality) == Ok::<Seq<u8>, Seq<char>>(b@)
            &&& name@ == format_name(format)
            &&& applied == if format == OutputFormat::Jpeg {
                Some(quality)
            } else {
                None
            }
        },
        Err(e) => encoding_in(src, ext, format, quality) matches Err(m) && failure_of(format, e, m),
    }
}

/// Encodes `image` in `format`; only JPEG uses `quality`. `Ok` carries the
/// bytes, the reported format name and the quality applied.
pub fn encode_converted(image: &DecodedImage, format: OutputFormat, quality: u8) -> (r: Result<
    (Vec<u8>, &'static str, Option<u8>),
    ConvertFailure,
>)
    ensures
        converted(image.source(), image.ext(), format, quality, r),
{
    let name = output_format_name(format);
    match format {
        OutputFormat::Jpeg => match encode_jpeg(image, quality) {
            Ok(b) => Ok((b, name, Some(quality))),
            Err(e) => Err(ConvertFailure::Jpeg(e)),
        },
        OutputFormat::Png => match encode_png(image) {
            Ok(b) => Ok((b, name, None)),
            Err(e) => Err(ConvertFailure::Png(e)),
        },
        OutputFormat::Webp => match encode_webp(image) {
            Ok(b) => Ok((b, name, None)),
            Err(e) => Err(ConvertFailure::Webp(e)),
        },
        OutputFormat::Bmp => encode_still_as(image, StillFormat::Bmp, name),
        OutputFormat::Gif => encode_still_as(image, StillFormat::Gif, name),
        OutputFormat::Tiff => encode_still_as(image, StillFormat::Tiff, name),
    }
}

fn encode_still_as(image: &DecodedImage, still: StillFormat, name: &'static str) -> (r: Result<
    (Vec<u8>, &'static str, Option<u8>),
    ConvertFailure,
>)
    ensures
        match r {
            Ok((b, n, applied)) => n == name && applied is None && still_encoding(image.source(), image.ext(), still) == Ok::<Seq<u8>, Seq<char>>(b@),
            Err(e) => e matches ConvertFailure::Still(s, m) && s == still && still_encoding(image.source(), image.ext(), still) == Err::<Seq<u8>, Seq<char>>(m@),
        },
{
    match encode_still(image, still) {
        Ok(b) => Ok((b, name, None)),
        Err(e) => Err(ConvertFailure::Still(still, e)),
    }
}

/// Why a conversion fails.
#[derive(Debug)]
pub enum ConvertError {
    /// The request is refused before the image is read.
    Rejected(ConvertRejection),
    /// The input bytes do not decode; the decoder's error text.
    Decode(String),
    /// Encoding failed.
    Encode(ConvertFailure),
}

/// Converts the image whose encoded bytes are `input` (the contents of the
/// file at `options.input`, which the file system reports as `input_kind`):
/// checks the request, decodes, and encodes in the output's format. `Ok`
/// carries the output bytes and the report.
pub fn convert_bytes(input_kind: PathKind, options: &ConvertOptions, input: &[u8]) -> (r: Result<
    (Vec<u8>, ConvertResult),
    ConvertError,
>)
    ensures
        match convert_verdict(input_kind, options.input@, options.output@, options.quality) {
            Err(e) => r matches Err(ConvertError::Rejected(x)) && x == e,
            Ok(format) => {
                let ext = path_extension(options.input@);
                match decode_failure(input@, ext) {
                    Some(m) => r matches Err(ConvertError::Decode(x)) && x@ == m,
                    None => match r {
                        Ok((bytes, res)) => {
                            &&& converted(input@, ext, format, options.quality, Ok((bytes, res.output_format, res.applied_quality)))
                            &&& res.input@ == options.input@
                            &&& res.output@ == options.output@
                            &&& (res.width, res.height) == decoded_dimensions_of(input@, ext)
                            &&& res.input_size_bytes == input@.len()
                            &&& res.output_size_bytes == bytes@.len()
                        },
                        Err(ConvertError::Encode(e)) => converted(input@, ext, format, options.quality, Err(e)),
                        Err(_) => false,
                    },
                }
            },
        },
{
    let format = match check_convert_request(input_kind, options) {
        Ok(f) => f,
        Err(e) => return Err(ConvertError::Rejected(e)),
    };
    let ext = file_extension(options.input.as_str());
    let image = match decode_image(input, opt_str(&ext)) {
        Ok(d) => d,
        Err(m) => return Err(ConvertError::Decode(m)),
    };
    let (width, height) = image_dimensions(&image);
    let (bytes, output_format, applied_quality) = match encode_converted(&image, format, options.quality) {
        Ok(x) => x,
        Err(e) => return Err(ConvertError::Encode(e)),
    };
    let output_size_bytes = bytes.len() as u64;
    let result = ConvertResult {
        input: options.input.clone(),
        output: options.output.clone(),
        width,
        height,
        input_size_bytes: input.len() as u64,
        output_size_bytes,
        output_format,
        applied_quality,
    };
    Ok((bytes, result))
}

/// Law: every output format is written by the encoder of that same format
/// and reported under that format's name: JPEG at the requested quality,
/// PNG, lossless WebP, and BMP, GIF and TIFF each by its own writer; only
/// JPEG reports a quality. A failure is that encoder's failure, reported
/// for that format.
pub proof fn law_each_format_uses_its_own_encoder(
    src: Seq<u8>,
    ext: Option<Seq<char>>,
    format: OutputFormat,
    quality: u8,
    r: Result<(Vec<u8>, &'static str, Option<u8>), ConvertFailure>,
)
    requires
        converted(src, ext, format, quality, r),
    ensures
        match r {
            Ok((b, name, applied)) => match format {
                OutputFormat::Jpeg => name@ == "jpeg"@ && applied == Some(quality) && jpeg_encoding(src, ext, quality) == Ok::<Seq<u8>, Seq<char>>(b@),
                OutputFormat::Png => name@ == "png"@ && applied is None && png_encoding(src, ext) == Ok::<Seq<u8>, Seq<char>>(b@),
                OutputFormat::Webp => name@ == "webp"@ && applied is None && webp_encoding(src, ext) == Ok::<Seq<u8>, Seq<char>>(b@),
                OutputFormat::Bmp => name@ == "bmp"@ && applied is None && still_encoding(src, ext, StillFormat::Bmp) == Ok::<Seq<u8>, Seq<char>>(b@),
                OutputFormat::Gif => name@ == "gif"@ && applied is None && still_encoding(src, ext, StillFormat::Gif) == Ok::<Seq<u8>, Seq<char>>(b@),
                OutputFormat::Tiff => name@ == "tiff"@ && applied is None && still_encoding(src, ext, StillFormat::Tiff) == Ok::<Seq<u8>, Seq<char>>(b@),
            },
            Err(e) => match (format, e) {
                (OutputFormat::Jpeg, ConvertFailure::Jpeg(m)) => jpeg_encoding(src, ext, quality) == Err::<Seq<u8>, Seq<char>>(m@),
                (OutputFormat::Png, ConvertFailure::Png(m)) => png_encoding(src, ext) == Err::<Seq<u8>, Seq<char>>(m@),
                (OutputFormat::Webp, ConvertFailure::Webp(m)) => webp_encoding(src, ext) == Err::<Seq<u8>, Seq<char>>(m@),
                (OutputFormat::Bmp, ConvertFailure::Still(StillFormat::Bmp, m)) => still_encoding(src, ext, StillFormat::Bmp) == Err::<Seq<u8>, Seq<char>>(m@),
                (OutputFormat::Gif, ConvertFailure::Still(StillFormat::Gif, m)) => still_encoding(src, ext, StillFormat::Gif) == Err::<Seq<u8>, Seq<char>>(m@),
                (OutputFormat::Tiff, ConvertFailure::Still(StillFormat::Tiff, m)) => still_encoding(src, ext, StillFormat::Tiff) == Err::<Seq<u8>, Seq<char>>(m@),
                _ => false,
            },
        },
{
}

/// Law: the output format follows the output extension in any ASCII case:
/// `jpg`/`jpeg` give JPEG, `png` PNG, `webp` WebP, `bmp` BMP, `gif` GIF,
/// `tiff`/`tif` TIFF, and every other extension is refused.
pub proof fn law_convert_output_format_by_extension(e: Seq<char>)
    ensures
        output_format_verdict(Some(e)) == output_format_verdict(Some(ascii_lowercase(e))),
        ({
            let l = ascii_lowercase(e);
            &&& (l == "jpg"@ || l == "jpeg"@) <==> output_format_verdict(Some(e)) == Ok::<OutputFormat, ConvertRejection>(OutputFormat::Jpeg)
            &&& l == "png"@ <==> output_format_verdict(Some(e)) == Ok::<OutputFormat, ConvertRejection>(OutputFormat::Png)
            &&& l == "webp"@ <==> output_format_verdict(Some(e)) == Ok::<OutputFormat, ConvertRejection>(OutputFormat::Webp)
            &&& l == "bmp"@ <==> output_format_verdict(Some(e)) == Ok::<OutputFormat, ConvertRejection>(OutputFormat::Bmp)
            &&& l == "gif"@ <==> output_format_verdict(Some(e)) == Ok::<OutputFormat, ConvertRejection>(OutputFormat::Gif)
            &&& (l == "tiff"@ || l == "tif"@) <==> output_format_verdict(Some(e)) == Ok::<OutputFormat, ConvertRejection>(OutputFormat::Tiff)
        }),
        output_format_verdict(None) == Err::<OutputFormat, ConvertRejection>(ConvertRejection::OutputExtension(ExtensionRejection::Missing)),
{
    lemma_lowercase_idempotent(e);
    reveal_strlit("jpg");
    reveal_strlit("jpeg");
    reveal_strlit("png");
    reveal_strlit("webp");
    reveal_strlit("bmp");
    reveal_strlit("gif");
    reveal_strlit("tiff");
    reveal_strlit("tif");
    assert("jpg"@[0] == 'j' && "jpeg"@[0] == 'j' && "png"@[0] == 'p' && "webp"@[0] == 'w');
    assert("bmp"@[0] == 'b' && "gif"@[0] == 'g' && "tiff"@[0] == 't' && "tif"@[0] == 't');
}

/// Law: for an existing input file with a raster extension, a conversion
/// request is refused for a quality outside `1..=100`, and otherwise decided
/// by the output extension alone.
pub proof fn law_convert_request_checks(input: Seq<char>, output: Seq<char>, quality: u8)
    requires
        raster_extension_verdict(path_extension(input)) is Ok,
    ensures
        !(1 <= quality <= 100) ==> convert_verdict(PathKind::File, input, output, quality)
            == Err::<OutputFormat, ConvertRejection>(ConvertRejection::QualityOutOfRange),
        1 <= quality <= 100 ==> convert_verdict(PathKind::File, input, output, quality) == output_format_verdict(path_extension(output)),
{
}

} // verus!
