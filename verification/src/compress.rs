//! Re-encoding an image at the same resolution to shrink the file: the
//! checks on a request, and the choice of encoder and JPEG quality.
use vstd::prelude::*;
use crate::codec::{
    decode_failure, decode_image, decoded_dimensions_of, encode_jpeg, encode_png, image_dimensions,
    jpeg_encoding, png_encoding, DecodedImage,
};
use crate::paths::{file_extension, path_extension, PathKind};
use crate::quality_search::{
    after_probe, clamp_quality, initial_search, law_probe_keeps_outcome, SearchModel, lemma_probe_progress, next_probe, quality_choice, search_measure,
    search_outcome, search_wf, size_monotone, law_choice_fits, law_choice_is_highest_fit, QualitySearch,
};
use crate::raster::{
    input_path_verdict, opt_view, raster_extension_verdict, validate_input_extension,
    validate_input_path, ExtensionRejection, PathRejection,
};
use crate::text::{lemma_lowercase_idempotent, ascii_lowercase, chars_match, chars_of, opt_str, to_ascii_lowercase};

verus! {

/// The encodings that compression writes.
#[derive(Clone, Copy, Debug, PartialEq, Eq, Structural)]
pub enum OutputFormat {
    Jpeg,
    Png,
}

/// Why a compression request is refused before any image is read.
#[derive(Clone, Copy, Debug, PartialEq, Eq, Structural)]
pub enum CompressRejection {
    InputPath(PathRejection),
    InputExtension(ExtensionRejection),
    QualityOutOfRange,
    ZeroMaxSize,
    OutputExtension(ExtensionRejection),
    MaxSizeNeedsJpeg,
}

/// Why encoding failed.
#[derive(Debug)]
pub enum CompressFailure {
    /// The JPEG encoder failed; the text is its error message.
    Jpeg(String),
    /// The PNG encoder failed; the text is its error message.
    Png(String),
    /// Even quality 1 does not fit into this many bytes.
    TargetUnreachable(u64),
}

/// A compression request.
#[derive(Debug)]
pub struct CompressOptions {
    pub input: String,
    pub output: String,
    pub quality: u8,
    pub max_size_kb: Option<u64>,
}

/// What a finished compression reports.
#[derive(Debug)]
pub struct CompressResult {
    pub input: String,
    pub output: String,
    pub width: u32,
    pub height: u32,
    pub input_size_bytes: u64,
    pub output_size_bytes: u64,
    pub applied_quality: Option<u8>,
    pub target_size_bytes: Option<u64>,
}

/// The encoding chosen for an output whose raw extension is `ext`.
pub open spec fn output_format_verdict(ext: Option<Seq<char>>) -> Result<OutputFormat, CompressRejection> {
    match ext {
        None => Err(CompressRejection::OutputExtension(ExtensionRejection::Missing)),
        Some(e) => {
            let l = ascii_lowercase(e);
            if l == "jpg"@ || l == "jpeg"@ {
                Ok(OutputFormat::Jpeg)
            } else if l == "png"@ {
                Ok(OutputFormat::Png)
            } else {
                Err(CompressRejection::OutputExtension(ExtensionRejection::Unsupported))
            }
        },
    }
}

/// The verdict on a whole request, checks taken in this order: the input
/// path, its extension, the quality, a zero size limit, the output format,
/// and a size limit on an output that is not JPEG.
pub open spec fn compress_verdict(
    kind: PathKind,
    input: Seq<char>,
    output: Seq<char>,
    quality: u8,
    max_size_kb: Option<u64>,
) -> Result<OutputFormat, CompressRejection> {
    match input_path_verdict(kind) {
        Err(e) => Err(CompressRejection::InputPath(e)),
        Ok(_) => match raster_extension_verdict(path_extension(input)) {
            Err(e) => Err(CompressRejection::InputExtension(e)),
            Ok(_) => if !(1 <= quality <= 100) {
                Err(CompressRejection::QualityOutOfRange)
            } else if max_size_kb == Some(0u64) {
                Err(CompressRejection::ZeroMaxSize)
            } else {
                match output_format_verdict(path_extension(output)) {
                    Err(e) => Err(e),
                    Ok(f) => if max_size_kb is Some && f != OutputFormat::Jpeg {
                        Err(CompressRejection::MaxSizeNeedsJpeg)
                    } else {
                        Ok(f)
                    },
                }
            },
        },
    }
}

/// The encoding named by the output extension `ext` (as the path gives it).
pub fn output_format_of(ext: Option<&str>) -> (r: Result<OutputFormat, CompressRejection>)
    ensures
        r == output_format_verdict(opt_view(ext)),
{
    match ext {
        None => Err(CompressRejection::OutputExtension(ExtensionRejection::Missing)),
        Some(e) => {
            let lower = to_ascii_lowercase(e);
            let v = chars_of(lower.as_str());
            if chars_match(&v, "jpg") || chars_match(&v, "jpeg") {
                Ok(OutputFormat::Jpeg)
            } else if chars_match(&v, "png") {
                Ok(OutputFormat::Png)
            } else {
                Err(CompressRejection::OutputExtension(ExtensionRejection::Unsupported))
            }
        },
    }
}

/// The encoding named by the extension of the output path.
pub fn infer_output_format(path: &str) -> (r: Result<OutputFormat, CompressRejection>)
    ensures
        r == output_format_verdict(path_extension(path@)),
{
    let ext = file_extension(path);
    match ext {
        Some(e) => output_format_of(Some(e.as_str())),
        None => output_format_of(None),
    }
}

/// All checks on a request, given what the file system reports for the
/// input path; `Ok` carries the output encoding.
pub fn check_compress_request(input_kind: PathKind, options: &CompressOptions) -> (r: Result<
    OutputFormat,
    CompressRejection,
>)
    ensures
        r == compress_verdict(
            input_kind,
            options.input@,
            options.output@,
            options.quality,
            options.max_size_kb,
        ),
{
    if let Err(e) = validate_input_path(input_kind) {
        return Err(CompressRejection::InputPath(e));
    }
    if let Err(e) = validate_input_extension(options.input.as_str()) {
        return Err(CompressRejection::InputExtension(e));
    }
    if !(1 <= options.quality && options.quality <= 100) {
        return Err(CompressRejection::QualityOutOfRange);
    }
    if options.max_size_kb == Some(0u64) {
        return Err(CompressRejection::ZeroMaxSize);
    }
    let format = infer_output_format(options.output.as_str())?;
    if options.max_size_kb.is_some() && format != OutputFormat::Jpeg {
        return Err(CompressRejection::MaxSizeNeedsJpeg);
    }
    Ok(format)
}

/// The byte budget for a limit in KiB: `kb * 1024`, saturating at `u64::MAX`.
pub open spec fn target_bytes(max_size_kb: Option<u64>) -> Option<u64> {
    match max_size_kb {
        Some(kb) => Some(
            if kb * 1024 > u64::MAX {
                u64::MAX
            } else {
                (kb * 1024) as u64
            },
        ),
        None => None,
    }
}

/// The byte budget for a size limit given in KiB.
pub fn target_size_bytes(max_size_kb: Option<u64>) -> (r: Option<u64>)
    ensures
        r == target_bytes(max_size_kb),
{
    match max_size_kb {
        Some(kb) => Some(
            if kb > u64::MAX / 1024 {
                u64::MAX
            } else {
                kb * 1024
            },
        ),
        None => None,
    }
}

/// Encoded size at each quality of the JPEG encodings of the image decoded
/// from `src` with the hint `ext` (0 where encoding fails).
pub open spec fn jpeg_sizes(src: Seq<u8>, ext: Option<Seq<char>>) -> spec_fn(int) -> int {
    |q: int|
        match jpeg_encoding(src, ext, q as u8) {
            Ok(b) => b.len() as int,
            Err(_) => 0int,
        }
}

/// The first quality, in the order the search from state `s` probes them,
/// whose JPEG encoding of the image decoded from `src` with the hint `ext`
/// fails; `None` when every probe encodes.
pub open spec fn first_failed_probe(s: SearchModel, src: Seq<u8>, ext: Option<Seq<char>>) -> Option<int>
    decreases search_measure(s),
    when search_wf(s)
{
    match next_probe(s) {
        None => None,
        Some(q) => if jpeg_encoding(src, ext, q as u8) is Err {
            Some(q)
        } else {
            proof {
                lemma_probe_progress(s, jpeg_sizes(src, ext)(q));
            }
            first_failed_probe(after_probe(s, jpeg_sizes(src, ext)(q)), src, ext)
        },
    }
}

/// `r` is what the quality search gives for the image decoded from `src`
/// with the hint `ext`, under the cap `preferred_max_quality` (clamped into
/// `1..=100`) and the budget `target`: on success the encoding at the
/// search's choice over the encoders' sizes; `TargetUnreachable` when the
/// search chooses nothing; an encoder error when a quality in range fails
/// to encode.
pub open spec fn jpeg_search_result(
    src: Seq<u8>,
    ext: Option<Seq<char>>,
    preferred_max_quality: u8,
    target: u64,
    r: Result<(Vec<u8>, u8), CompressFailure>,
) -> bool {
    let cap = clamp_quality(preferred_max_quality as int);
    let choice = quality_choice(jpeg_sizes(src, ext), target as int, cap);
    let first = first_failed_probe(initial_search(cap, target as int), src, ext);
    match r {
        Ok((bytes, q)) => first is None && choice == Some(q as int) && jpeg_encoding(src, ext, q) == Ok::<
            Seq<u8>,
            Seq<char>,
        >(bytes@),
        Err(CompressFailure::TargetUnreachable(t)) => first is None && t == target && choice is None,
        Err(CompressFailure::Jpeg(m)) => first matches Some(q) && 1 <= q <= cap && jpeg_encoding(src, ext, q as u8)
            == Err::<Seq<u8>, Seq<char>>(m@),
        Err(_) => false,
    }
}

/// Law: when every quality up to the cap encodes and the encoded size
/// grows with quality, the search's result is the highest quality that
/// fits (with that quality's encoding), it fails exactly when quality 1
/// does not fit, and it keeps the cap itself whenever that fits.
pub proof fn law_jpeg_search_highest_fit(
    src: Seq<u8>,
    ext: Option<Seq<char>>,
    preferred_max_quality: u8,
    target: u64,
    r: Result<(Vec<u8>, u8), CompressFailure>,
)
    requires
        jpeg_search_result(src, ext, preferred_max_quality, target, r),
        forall|q: int| 1 <= q <= clamp_quality(preferred_max_quality as int) ==> #[trigger] jpeg_encoding(src, ext, q as u8) is Ok,
        size_monotone(jpeg_sizes(src, ext), clamp_quality(preferred_max_quality as int)),
    ensures
        r is Err <==> jpeg_sizes(src, ext)(1) > target,
        r is Err ==> r == Err::<(Vec<u8>, u8), CompressFailure>(CompressFailure::TargetUnreachable(target)),
        r matches Ok((b, q)) ==> jpeg_encoding(src, ext, q) == Ok::<Seq<u8>, Seq<char>>(b@) && forall|p: int|
            1 <= p <= clamp_quality(preferred_max_quality as int) ==> (#[trigger] jpeg_sizes(src, ext)(p) <= target <==> p <= q),
        jpeg_sizes(src, ext)(clamp_quality(preferred_max_quality as int)) <= target ==> (r matches Ok((_, q)) && q == clamp_quality(preferred_max_quality as int)),
{
    let cap = clamp_quality(preferred_max_quality as int);
    let sizes = jpeg_sizes(src, ext);
    law_choice_fits(sizes, target as int, cap);
    law_choice_is_highest_fit(sizes, target as int, cap);
    if let Err(CompressFailure::Jpeg(m)) = r {
        let q = first_failed_probe(initial_search(cap, target as int), src, ext)->0;
        assert(jpeg_encoding(src, ext, q as u8) is Ok);
    }
    if let Ok((b, q)) = r {
        assert(sizes(q as int) <= target);
    }
}

/// JPEG bytes at the quality that `QualitySearch` chooses under the cap
/// `preferred_max_quality` (clamped into `1..=100`) and the byte budget:
/// the highest quality that fits when sizes grow with quality (see
/// `law_choice_is_highest_fit`).
pub fn find_jpeg_bytes_for_target(
    image: &DecodedImage,
    preferred_max_quality: u8,
    target_size_bytes: u64,
) -> (r: Result<(Vec<u8>, u8), CompressFailure>)
    ensures
        jpeg_search_result(image.source(), image.ext(), preferred_max_quality, target_size_bytes, r),
{
    let ghost src = image.source();
    let ghost ext = image.ext();
    let ghost sizes = jpeg_sizes(src, ext);
    let ghost cap = clamp_quality(preferred_max_quality as int);
    let mut search = QualitySearch::new(preferred_max_quality, target_size_bytes);
    let mut best: Option<Vec<u8>> = None;
    loop
        invariant
            src == image.source(),
            ext == image.ext(),
            sizes == jpeg_sizes(src, ext),
            cap == clamp_quality(preferred_max_quality as int),
            search_wf(search@),
            search@.target == target_size_bytes,
            search@.max_quality == cap,
            search_outcome(search@, sizes) == quality_choice(sizes, target_size_bytes as int, cap),
            first_failed_probe(search@, src, ext) == first_failed_probe(initial_search(cap, target_size_bytes as int), src, ext),
            match best {
                Some(b) => search@.best matches Some(bq) && jpeg_encoding(src, ext, bq as u8) == Ok::<
                    Seq<u8>,
                    Seq<char>,
                >(b@),
                None => search@.best is None,
            },
        ensures
            next_probe(search@) is None,
        decreases search_measure(search@),
    {
        let probe = search.next_probe();
        match probe {
            None => break,
            Some(q) => {
                proof {
                    lemma_probe_progress(search@, 0);
                }
                let bytes = match encode_jpeg(image, q) {
                    Ok(b) => b,
                    Err(e) => {
                        assert(jpeg_encoding(src, ext, (q as int) as u8) == Err::<Seq<u8>, Seq<char>>(e@));
                        return Err(CompressFailure::Jpeg(e));
                    },
                };
                let size = bytes.len() as u64;
                proof {
                    assert(sizes(q as int) == size as int);
                    law_probe_keeps_outcome(search@, sizes);
                }
                let ghost before = search@;
                search.record(size);
                if size <= target_size_bytes {
                    best = Some(bytes);
                }
                proof {
                    if size <= target_size_bytes {
                        assert(search@.best == Some(q as int));
                    } else {
                        assert(search@.best == before.best);
                    }
                }
            },
        }
    }
    proof {
        assert(search_outcome(search@, sizes) == search@.best);
    }
    match (best, search.chosen()) {
        (Some(bytes), Some(q)) => Ok((bytes, q)),
        _ => Err(CompressFailure::TargetUnreachable(target_size_bytes)),
    }
}

/// `r` is the result of encoding the image decoded from `src` with the hint
/// `ext` for compression: PNG ignores quality and limit; JPEG without a
/// limit is encoded at `quality`; JPEG with a limit is the quality search
/// up to `quality` within the limit's byte budget.
pub open spec fn compress_encoded(
    src: Seq<u8>,
    ext: Option<Seq<char>>,
    format: OutputFormat,
    quality: u8,
    max_size_kb: Option<u64>,
    r: Result<(Vec<u8>, Option<u8>), CompressFailure>,
) -> bool {
    match format {
        OutputFormat::Png => match r {
            Ok((b, applied)) => applied is None && png_encoding(src, ext) == Ok::<Seq<u8>, Seq<char>>(b@),
            Err(e) => e matches CompressFailure::Png(m) && png_encoding(src, ext) == Err::<
                Seq<u8>,
                Seq<char>,
            >(m@),
        },
        OutputFormat::Jpeg => match max_size_kb {
            None => match r {
                Ok((b, applied)) => applied == Some(quality) && jpeg_encoding(src, ext, quality) == Ok::<
                    Seq<u8>,
                    Seq<char>,
                >(b@),
                Err(e) => e matches CompressFailure::Jpeg(m) && jpeg_encoding(src, ext, quality) == Err::<
                    Seq<u8>,
                    Seq<char>,
                >(m@),
            },
            Some(_) => {
                let target = target_bytes(max_size_kb)->0;
                match r {
                    Ok((b, Some(q))) => jpeg_search_result(src, ext, quality, target, Ok((b, q))),
                    Ok((_, None)) => false,
                    Err(e) => jpeg_search_result(src, ext, quality, target, Err(e)),
                }
            },
        },
    }
}

/// Encodes `image` for compression. PNG ignores quality and limit; JPEG
/// without a limit uses `quality`; JPEG with a limit searches for a quality
/// up to `quality` whose bytes fit the limit.
pub fn encode_for_compress(
    image: &DecodedImage,
    format: OutputFormat,
    quality: u8,
    max_size_kb: Option<u64>,
) -> (r: Result<(Vec<u8>, Option<u8>), CompressFailure>)
    ensures
        compress_encoded(image.source(), image.ext(), format, quality, max_size_kb, r),
{
    let target = target_size_bytes(max_size_kb);
    match format {
        OutputFormat::Jpeg => match target {
            Some(t) => match find_jpeg_bytes_for_target(image, quality, t) {
                Ok((bytes, q)) => Ok((bytes, Some(q))),
                Err(e) => Err(e),
            },
            None => match encode_jpeg(image, quality) {
                Ok(bytes) => Ok((bytes, Some(quality))),
                Err(e) => Err(CompressFailure::Jpeg(e)),
            },
        },
        OutputFormat::Png => match encode_png(image) {
            Ok(bytes) => Ok((bytes, None)),
            Err(e) => Err(CompressFailure::Png(e)),
        },
    }
}

/// Why a compression fails.
#[derive(Debug)]
pub enum CompressError {
    /// The request is refused before the image is read.
    Rejected(CompressRejection),
    /// The input bytes do not decode; the decoder's error text.
    Decode(String),
    /// Encoding failed.
    Encode(CompressFailure),
}

/// Compresses the image whose encoded bytes are `input` (the contents of
/// the file at `options.input`, which the file system reports as
/// `input_kind`): checks the request, decodes, and re-encodes. `Ok` carries
/// the output bytes and the report.
pub fn compress_bytes(input_kind: PathKind, options: &CompressOptions, input: &[u8]) -> (r: Result<
    (Vec<u8>, CompressResult),
    CompressError,
>)
    ensures
        match compress_verdict(
            input_kind,
            options.input@,
            options.output@,
            options.quality,
            options.max_size_kb,
        ) {
            Err(e) => r matches Err(CompressError::Rejected(x)) && x == e,
            Ok(format) => {
                let ext = path_extension(options.input@);
                match decode_failure(input@, ext) {
                    Some(m) => r matches Err(CompressError::Decode(x)) && x@ == m,
                    None => match r {
                        Ok((bytes, res)) => {
                            &&& compress_encoded(input@, ext, format, options.quality, options.max_size_kb, Ok((bytes, res.applied_quality)))
                            &&& res.input@ == options.input@
                            &&& res.output@ == options.output@
                            &&& (res.width, res.height) == decoded_dimensions_of(input@, ext)
                            &&& res.input_size_bytes == input@.len()
                            &&& res.output_size_bytes == bytes@.len()
                            &&& res.target_size_bytes == target_bytes(options.max_size_kb)
                        },
                        Err(CompressError::Encode(e)) => compress_encoded(input@, ext, format, options.quality, options.max_size_kb, Err(e)),
                        Err(_) => false,
                    },
                }
            },
        },
{
    let format = match check_compress_request(input_kind, options) {
        Ok(f) => f,
        Err(e) => return Err(CompressError::Rejected(e)),
    };
    let ext = file_extension(options.input.as_str());
    let image = match decode_image(input, opt_str(&ext)) {
        Ok(d) => d,
        Err(m) => return Err(CompressError::Decode(m)),
    };
    let (width, height) = image_dimensions(&image);
    let (bytes, applied_quality) = match encode_for_compress(&image, format, options.quality, options.max_size_kb) {
        Ok(x) => x,
        Err(e) => return Err(CompressError::Encode(e)),
    };
    let output_size_bytes = bytes.len() as u64;
    let result = CompressResult {
        input: options.input.clone(),
        output: options.output.clone(),
        width,
        height,
        input_size_bytes: input.len() as u64,
        output_size_bytes,
        applied_quality,
        target_size_bytes: target_size_bytes(options.max_size_kb),
    };
    Ok((bytes, result))
}

/// Law: the quality reported for a JPEG output is the quality its bytes
/// were encoded at, for any request: without a size limit that is the
/// requested quality itself; with a limit it lies between 1 and the
/// requested quality (clamped into `1..=100`). An encoder failure without a
/// limit is the encoder's failure at the requested quality.
pub proof fn law_reported_quality_is_the_encoding_quality(
    src: Seq<u8>,
    ext: Option<Seq<char>>,
    quality: u8,
    max_size_kb: Option<u64>,
    r: Result<(Vec<u8>, Option<u8>), CompressFailure>,
)
    requires
        compress_encoded(src, ext, OutputFormat::Jpeg, quality, max_size_kb, r),
    ensures
        r matches Ok((b, applied)) ==> applied matches Some(q) && jpeg_encoding(src, ext, q) == Ok::<Seq<u8>, Seq<char>>(b@)
            && (max_size_kb is Some ==> 1 <= q <= clamp_quality(quality as int)),
        max_size_kb is None ==> match r {
            Ok((b, applied)) => applied == Some(quality) && jpeg_encoding(src, ext, quality) == Ok::<Seq<u8>, Seq<char>>(b@),
            Err(CompressFailure::Jpeg(m)) => jpeg_encoding(src, ext, quality) == Err::<Seq<u8>, Seq<char>>(m@),
            Err(_) => false,
        },
{
    if let Some(kb) = max_size_kb {
        let target = target_bytes(max_size_kb)->0;
        let cap = clamp_quality(quality as int);
        law_choice_fits(jpeg_sizes(src, ext), target as int, cap);
    }
}

/// Law: a PNG output is the PNG encoder's output (or its failure), whatever
/// quality and size limit were given, and reports no quality.
pub proof fn law_png_output_is_the_png_encoding(
    src: Seq<u8>,
    ext: Option<Seq<char>>,
    quality: u8,
    max_size_kb: Option<u64>,
    r: Result<(Vec<u8>, Option<u8>), CompressFailure>,
)
    requires
        compress_encoded(src, ext, OutputFormat::Png, quality, max_size_kb, r),
    ensures
        match r {
            Ok((b, applied)) => applied is None && png_encoding(src, ext) == Ok::<Seq<u8>, Seq<char>>(b@),
            Err(CompressFailure::Png(m)) => png_encoding(src, ext) == Err::<Seq<u8>, Seq<char>>(m@),
            Err(_) => false,
        },
{
}

/// Law: compression writes JPEG for `jpg`/`jpeg` and PNG for `png`, in any
/// ASCII case, and refuses every other output extension.
pub proof fn law_compress_output_format_by_extension(e: Seq<char>)
    ensures
        output_format_verdict(Some(e)) == output_format_verdict(Some(ascii_lowercase(e))),
        ({
            let l = ascii_lowercase(e);
            &&& (l == "jpg"@ || l == "jpeg"@) <==> output_format_verdict(Some(e)) == Ok::<OutputFormat, CompressRejection>(OutputFormat::Jpeg)
            &&& l == "png"@ <==> output_format_verdict(Some(e)) == Ok::<OutputFormat, CompressRejection>(OutputFormat::Png)
            &&& !(l == "jpg"@ || l == "jpeg"@ || l == "png"@) ==> output_format_verdict(Some(e))
                == Err::<OutputFormat, CompressRejection>(CompressRejection::OutputExtension(ExtensionRejection::Unsupported))
        }),
{
    lemma_lowercase_idempotent(e);
    reveal_strlit("jpg");
    reveal_strlit("jpeg");
    reveal_strlit("png");
    assert("jpg"@[0] == 'j' && "jpeg"@[0] == 'j' && "png"@[0] == 'p');
}

/// Law: for an existing input file with a raster extension, a compression
/// request is refused for a quality outside `1..=100`, then for a size
/// limit of 0 KiB; a size limit is only accepted with JPEG output; and a
/// request that passes these checks is accepted with the output extension's
/// format.
pub proof fn law_compress_request_checks(input: Seq<char>, output: Seq<char>, quality: u8, max_size_kb: Option<u64>)
    requires
        raster_extension_verdict(path_extension(input)) is Ok,
    ensures
        !(1 <= quality <= 100) ==> compress_verdict(PathKind::File, input, output, quality, max_size_kb)
            == Err::<OutputFormat, CompressRejection>(CompressRejection::QualityOutOfRange),
        (1 <= quality <= 100 && max_size_kb == Some(0u64)) ==> compress_verdict(PathKind::File, input, output, quality, max_size_kb)
            == Err::<OutputFormat, CompressRejection>(CompressRejection::ZeroMaxSize),
        compress_verdict(PathKind::File, input, output, quality, max_size_kb) matches Ok(f) ==> (1 <= quality <= 100
            && output_format_verdict(path_extension(output)) == Ok::<OutputFormat, CompressRejection>(f)
            && (max_size_kb matches Some(k) ==> k > 0 && f == OutputFormat::Jpeg)),
        (1 <= quality <= 100 && (max_size_kb matches Some(k) ==> k > 0)
            && output_format_verdict(path_extension(output)) == Ok::<OutputFormat, CompressRejection>(OutputFormat::Jpeg))
            ==> compress_verdict(PathKind::File, input, output, quality, max_size_kb) == Ok::<OutputFormat, CompressRejection>(OutputFormat::Jpeg),
        (1 <= quality <= 100 && max_size_kb is None
            && output_format_verdict(path_extension(output)) == Ok::<OutputFormat, CompressRejection>(OutputFormat::Png))
            ==> compress_verdict(PathKind::File, input, output, quality, max_size_kb) == Ok::<OutputFormat, CompressRejection>(OutputFormat::Png),
{
}

/// Law: a size limit of `kb` KiB is a budget of `kb * 1024` bytes, capped
/// at the largest `u64`; the budget never shrinks as the limit grows.
pub proof fn law_target_bytes(kb: u64, kb2: u64)
    ensures
        kb * 1024 <= u64::MAX ==> target_bytes(Some(kb)) == Some((kb * 1024) as u64),
        kb * 1024 > u64::MAX ==> target_bytes(Some(kb)) == Some(u64::MAX),
        kb <= kb2 ==> target_bytes(Some(kb))->0 <= target_bytes(Some(kb2))->0,
        target_bytes(None) is None,
{
}

} // verus!
