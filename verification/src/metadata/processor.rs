//! Building a metadata record from what is read of a file, and keeping the
//! records and counts of a run over many files.
use vstd::prelude::*;
use crate::color::{bit_depth, channel_count, has_alpha, infer_color_space, ColorKind, alpha_of, channels_of, color_space_of, depth_of};
use crate::metadata::exif::{bundle_matches, ExifBundle, ExifFields, is_no_exif_error, no_exif_message};
use crate::metadata::exif_read::{bundle_of_bytes, exif_bundle_from_bytes, fields_read};
use crate::metadata::format::{
    format_for, format_info_from_path, has_supported_extension, is_supported_raster_format,
    raster_format_mime_and_ext, raster_mime_and_ext, FileKind, RasterFormat,
};
use crate::metadata::model::{BatchSummary, MetadataRecord, ProcessOutput, RecordStatus};
use crate::paths::{file_extension, lowercase_extension, lowered_extension, path_extension, PathKind};
use crate::tally::{empty_tally, fail_fast_kept, tally_step, RunTally, TallyModel};
use crate::text::{opt_chars, opt_str};
use crate::codec::{
    decode_failure, decode_image, decoded_color_of, decoded_dimensions_of, detect_format, detected_format_of,
    image_color, image_dimensions,
};

verus! {

/// The label under which a record status is shown.
pub fn status_label(status: RecordStatus) -> (r: &'static str)
    ensures
        r@ == match status {
            RecordStatus::Success => "ok"@,
            RecordStatus::Error => "error"@,
        },
{
    match status {
        RecordStatus::Success => "ok",
        RecordStatus::Error => "error",
    }
}

/// What is done with a path given for processing.
#[derive(Clone, Copy, Debug, PartialEq, Eq, Structural)]
pub enum ProcessPlan {
    /// Read the one file.
    ReadFile,
    /// A file without a supported extension: counted as one failure.
    RejectFile,
    /// Walk the directory for files with supported extensions.
    ScanDirectory,
}

/// Why a path cannot be processed at all.
#[derive(Clone, Copy, Debug, PartialEq, Eq, Structural)]
pub enum ProcessRejection {
    PathMissing,
    UnsupportedPathType,
}

pub open spec fn process_plan(kind: PathKind, path: Seq<char>) -> Result<ProcessPlan, ProcessRejection> {
    match kind {
        PathKind::Missing => Err(ProcessRejection::PathMissing),
        PathKind::File => if format_for(path_extension(path)) is Some {
            Ok(ProcessPlan::ReadFile)
        } else {
            Ok(ProcessPlan::RejectFile)
        },
        PathKind::Directory => Ok(ProcessPlan::ScanDirectory),
        PathKind::Other => Err(ProcessRejection::UnsupportedPathType),
    }
}

/// How to process `path`, given what the file system reports for it.
pub fn plan_process(kind: PathKind, path: &str) -> (r: Result<ProcessPlan, ProcessRejection>)
    ensures
        r == process_plan(kind, path@),
{
    match kind {
        PathKind::Missing => Err(ProcessRejection::PathMissing),
        PathKind::File => if has_supported_extension(path) {
            Ok(ProcessPlan::ReadFile)
        } else {
            Ok(ProcessPlan::RejectFile)
        },
        PathKind::Directory => Ok(ProcessPlan::ScanDirectory),
        PathKind::Other => Err(ProcessRejection::UnsupportedPathType),
    }
}

/// The output for a single file whose extension is not supported: no
/// records, one failure.
pub fn rejected_file_output() -> (r: ProcessOutput)
    ensures
        r.records@.len() == 0,
        r.summary == (BatchSummary { total: 1, succeeded: 0, failed: 1, aborted: false }),
{
    ProcessOutput {
        records: Vec::new(),
        summary: BatchSummary { total: 1, succeeded: 0, failed: 1, aborted: false },
    }
}

/// Why a file's metadata cannot be reported.
#[derive(Debug)]
pub enum MetadataRejection {
    /// The extension names no supported format.
    UnsupportedExtension,
    /// The decoder reports a format whose metadata is not read.
    UnsupportedFormat,
    /// The decoder recognizes no format in the file.
    UnknownFormat,
    /// The file does not decode; the decoder's error text.
    Undecodable(String),
    /// The decoded image has a color type the metadata does not describe.
    UnsupportedColor,
    /// The EXIF data of a RAW file cannot be read; the text says why.
    RawExifUnreadable(String),
    /// A RAW file has no EXIF data.
    RawWithoutExif,
    /// A RAW file's EXIF data has no dimensions.
    RawWithoutDimensions,
}

/// A record for `path` before anything is read from the file: the MIME type
/// of the extension's format and the lower-case extension (the format's
/// canonical one when the path has none), everything else empty.
pub open spec fn fresh_record(r: MetadataRecord, path: Seq<char>, mime: Seq<char>, ext: Seq<char>) -> bool {
    &&& r.path@ == path
    &&& r.status == RecordStatus::Success
    &&& r.error is None
    &&& r.warnings@.len() == 0
    &&& r.file_size_bytes is None
    &&& r.modified_at is None
    &&& opt_chars(r.mime) == Some(mime)
    &&& opt_chars(r.extension) == Some(ext)
    &&& r.width is None
    &&& r.height is None
    &&& r.pixel_count is None
    &&& r.channels is None
    &&& r.bit_depth is None
    &&& r.has_alpha is None
    &&& r.orientation is None
    &&& r.color_space is None
    &&& r.capture is None
}

/// Starts the record of the file at `path` (its display text) from what
/// its extension says; `Err` when the extension names no supported format.
pub fn begin_record(path: &str) -> (r: Result<(MetadataRecord, FileKind), MetadataRejection>)
    ensures
        match (r, format_for(path_extension(path@))) {
            (Ok((rec, kind)), Some((k, mime, canonical))) => kind == k && fresh_record(
                rec,
                path@,
                mime,
                match lowered_extension(path@) {
                    Some(e) => e,
                    None => canonical,
                },
            ),
            (Err(e), None) => e matches MetadataRejection::UnsupportedExtension,
            _ => false,
        },
{
    let info = match format_info_from_path(path) {
        Some(info) => info,
        None => return Err(MetadataRejection::UnsupportedExtension),
    };
    let extension = match lowercase_extension(path) {
        Some(e) => e,
        None => String::from_str(info.canonical_ext),
    };
    let record = MetadataRecord {
        path: String::from_str(path),
        status: RecordStatus::Success,
        error: None,
        warnings: Vec::new(),
        file_size_bytes: None,
        modified_at: None,
        mime: Some(String::from_str(info.mime)),
        extension: Some(extension),
        width: None,
        height: None,
        pixel_count: None,
        channels: None,
        bit_depth: None,
        has_alpha: None,
        orientation: None,
        color_space: None,
        capture: None,
    };
    Ok((record, info.kind))
}

/// Records the file size and the modification time (seconds since the
/// Unix epoch, as text, when known).
pub fn fill_fs_metadata(record: &mut MetadataRecord, size: u64, modified_at: Option<String>)
    ensures
        *final(record) == (MetadataRecord {
            file_size_bytes: Some(size),
            modified_at: modified_at,
            ..*old(record)
        }),
{
    record.file_size_bytes = Some(size);
    record.modified_at = modified_at;
}

/// What decoding a raster image tells.
#[derive(Clone, Copy, Debug)]
pub struct RasterInfo {
    pub width: u32,
    pub height: u32,
    pub color: ColorKind,
}

/// The record after the decoder named the file's format: MIME type from the
/// format, and the format's canonical extension only if the record has none.
pub open spec fn format_applied(old: MetadataRecord, new: MetadataRecord, mime: Seq<char>, ext: Seq<char>) -> bool {
    &&& opt_chars(new.mime) == Some(mime)
    &&& opt_chars(new.extension) == match old.extension {
        Some(x) => Some(x@),
        None => Some(ext),
    }
    &&& new == (MetadataRecord { mime: new.mime, extension: new.extension, ..old })
}

/// Takes the format the decoder detected into the record; `Err` (with the
/// record unchanged) for a format whose metadata is not read.
pub fn apply_raster_format(record: &mut MetadataRecord, format: RasterFormat) -> (r: Result<(), MetadataRejection>)
    ensures
        match raster_mime_and_ext(format) {
            Some((m, e)) => r is Ok && format_applied(*old(record), *final(record), m, e),
            None => (r matches Err(MetadataRejection::UnsupportedFormat)) && *final(record) == *old(record),
        },
{
    if !is_supported_raster_format(format) {
        return Err(MetadataRejection::UnsupportedFormat);
    }
    if let Some((mime, canonical_ext)) = raster_format_mime_and_ext(format) {
        record.mime = Some(String::from_str(mime));
        if record.extension.is_none() {
            record.extension = Some(String::from_str(canonical_ext));
        }
    }
    Ok(())
}

/// The record after decoding: dimensions, pixel count and the color facts.
pub open spec fn decoded_applied(old: MetadataRecord, new: MetadataRecord, info: RasterInfo) -> bool {
    &&& new.width == Some(info.width)
    &&& new.height == Some(info.height)
    &&& new.pixel_count == Some((info.width * info.height) as u64)
    &&& new.channels == Some(channels_of(info.color))
    &&& new.bit_depth == Some(depth_of(info.color))
    &&& new.has_alpha == Some(alpha_of(info.color))
    &&& opt_chars(new.color_space) == Some(color_space_of(info.color))
    &&& new == (MetadataRecord {
        width: new.width,
        height: new.height,
        pixel_count: new.pixel_count,
        channels: new.channels,
        bit_depth: new.bit_depth,
        has_alpha: new.has_alpha,
        color_space: new.color_space,
        ..old
    })
}

/// Width times height, which always fits 64 bits.
pub fn pixel_count(width: u32, height: u32) -> (r: u64)
    ensures
        r == width * height,
{
    assert((width as int) * (height as int) <= u64::MAX) by (nonlinear_arith)
        requires
            width <= u32::MAX,
            height <= u32::MAX,
    ;
    width as u64 * height as u64
}

/// Fills in what decoding a raster image told.
pub fn apply_decoded_image(record: &mut MetadataRecord, info: RasterInfo)
    ensures
        decoded_applied(*old(record), *final(record), info),
{
    record.width = Some(info.width);
    record.height = Some(info.height);
    record.pixel_count = Some(pixel_count(info.width, info.height));
    record.channels = Some(channel_count(info.color));
    record.bit_depth = Some(bit_depth(info.color));
    record.has_alpha = Some(has_alpha(info.color));
    record.color_space = Some(infer_color_space(info.color));
}

/// The record after an EXIF bundle: each present part replaces what the
/// record had; dimensions also set the pixel count.
pub open spec fn exif_applied(old: MetadataRecord, new: MetadataRecord, b: ExifBundle) -> bool {
    &&& new.color_space == if b.color_space is Some { b.color_space } else { old.color_space }
    &&& exif_applied_but_color(old, new, b)
}

/// `exif_applied` on every field but the color space.
pub open spec fn exif_applied_but_color(old: MetadataRecord, new: MetadataRecord, b: ExifBundle) -> bool {
    &&& new.orientation == if b.orientation is Some { b.orientation } else { old.orientation }
    &&& new.capture == if b.capture is Some { b.capture } else { old.capture }
    &&& match b.dimensions {
        Some((w, h)) => new.width == Some(w) && new.height == Some(h) && new.pixel_count == Some(
            (w * h) as u64,
        ),
        None => new.width == old.width && new.height == old.height && new.pixel_count
            == old.pixel_count,
    }
    &&& new.path == old.path
    &&& new.status == old.status
    &&& new.error == old.error
    &&& new.warnings == old.warnings
    &&& new.file_size_bytes == old.file_size_bytes
    &&& new.modified_at == old.modified_at
    &&& new.mime == old.mime
    &&& new.extension == old.extension
    &&& new.channels == old.channels
    &&& new.bit_depth == old.bit_depth
    &&& new.has_alpha == old.has_alpha
}

/// Takes what an EXIF bundle has into the record.
pub fn apply_exif(record: &mut MetadataRecord, exif: ExifBundle)
    ensures
        exif_applied(*old(record), *final(record), exif),
{
    let ExifBundle { orientation, color_space, capture, dimensions } = exif;
    if let Some(o) = orientation {
        record.orientation = Some(o);
    }
    if let Some(c) = color_space {
        record.color_space = Some(c);
    }
    if let Some(c) = capture {
        record.capture = Some(c);
    }
    if let Some((width, height)) = dimensions {
        record.width = Some(width);
        record.height = Some(height);
        record.pixel_count = Some(pixel_count(width, height));
    }
}

/// The warning recorded when the EXIF data of a raster image cannot be read.
pub open spec fn exif_warning(err: Seq<char>) -> Seq<char> {
    "failed to read EXIF: "@ + err
}

/// The record after the outcome of reading a raster image's EXIF data: a
/// bundle is applied, no data changes nothing, and a read error adds a
/// warning unless it only says that there is no EXIF data.
pub open spec fn raster_exif_applied(old: MetadataRecord, new: MetadataRecord, outcome: Result<Option<ExifBundle>, String>) -> bool {
    match outcome {
        Ok(Some(b)) => exif_applied(old, new, b),
        Ok(None) => new == old,
        Err(e) => if no_exif_message(e@) {
            new == old
        } else {
            &&& new.warnings@.len() == old.warnings@.len() + 1
            &&& new.warnings@.drop_last() == old.warnings@
            &&& new.warnings@.last()@ == exif_warning(e@)
            &&& new == (MetadataRecord { warnings: new.warnings, ..old })
        },
    }
}

/// Takes the outcome of reading a raster image's EXIF data into the record.
pub fn apply_raster_exif(record: &mut MetadataRecord, outcome: Result<Option<ExifBundle>, String>)
    ensures
        raster_exif_applied(*old(record), *final(record), outcome),
{
    match outcome {
        Ok(Some(bundle)) => apply_exif(record, bundle),
        Ok(None) => {},
        Err(err) => {
            if !is_no_exif_error(err.as_str()) {
                let mut warning = String::from_str("failed to read EXIF: ");
                warning.append(err.as_str());
                record.warnings.push(warning);
                assert(record.warnings@.drop_last() =~= old(record).warnings@);
            }
        },
    }
}

/// `new` and `r` are what reading the raster file at `path`, with contents
/// `bytes` and EXIF outcome `exif`, into the record `old` gives (see
/// `read_raster_record`).
pub open spec fn raster_read(
    old: MetadataRecord,
    new: MetadataRecord,
    path: Seq<char>,
    bytes: Seq<u8>,
    exif: Result<Option<ExifBundle>, String>,
    r: Result<(), MetadataRejection>,
) -> bool {
    ({
        let ext = path_extension(path);
        match detected_format_of(bytes, ext) {
            None => (r matches Err(MetadataRejection::UnknownFormat)) && new == old,
            Some(f) => match raster_mime_and_ext(f) {
                None => (r matches Err(MetadataRejection::UnsupportedFormat)) && new == old,
                Some((m, e)) => match decode_failure(bytes, ext) {
                    Some(msg) => (r matches Err(MetadataRejection::Undecodable(x)) && x@ == msg)
                        && format_applied(old, new, m, e),
                    None => match decoded_color_of(bytes, ext) {
                        None => (r matches Err(MetadataRejection::UnsupportedColor))
                            && format_applied(old, new, m, e),
                        Some(c) => {
                            let info = RasterInfo {
                                width: decoded_dimensions_of(bytes, ext).0,
                                height: decoded_dimensions_of(bytes, ext).1,
                                color: c,
                            };
                            &&& r is Ok
                            &&& exists|a: MetadataRecord, b: MetadataRecord|
                                #![trigger format_applied(old, a, m, e), decoded_applied(a, b, info)]
                                format_applied(old, a, m, e) && decoded_applied(a, b, info)
                                    && raster_exif_applied(b, new, exif)
                        },
                    },
                },
            },
        }
    })
}

/// Reads a raster file's metadata into `record` from the file's bytes:
/// the format the decoder detects (with the extension of `path` as hint)
/// must be one whose metadata is read; then the image is decoded for its
/// dimensions and color type, and the outcome of reading its EXIF data is
/// applied. Each step fails as the contract says, in this order.
pub fn read_raster_record(
    record: &mut MetadataRecord,
    path: &str,
    bytes: &[u8],
    exif: Result<Option<ExifBundle>, String>,
) -> (r: Result<(), MetadataRejection>)
    ensures
        raster_read(*old(record), *final(record), path@, bytes@, exif, r),
{
    let ext = file_extension(path);
    let format = match detect_format(bytes, opt_str(&ext)) {
        Some(f) => f,
        None => return Err(MetadataRejection::UnknownFormat),
    };
    apply_raster_format(record, format)?;
    let ghost a = *record;
    let image = match decode_image(bytes, opt_str(&ext)) {
        Ok(d) => d,
        Err(m) => return Err(MetadataRejection::Undecodable(m)),
    };
    let (width, height) = image_dimensions(&image);
    let color = match image_color(&image) {
        Some(c) => c,
        None => return Err(MetadataRejection::UnsupportedColor),
    };
    let info = RasterInfo { width, height, color };
    apply_decoded_image(record, info);
    let ghost b = *record;
    apply_raster_exif(record, exif);
    proof {
        let me = raster_mime_and_ext(format)->0;
        assert(format_applied(*old(record), a, me.0, me.1));
        assert(decoded_applied(a, b, info));
    }
    Ok(())
}

/// The record step for a file of `kind`: a raster file is read from its
/// bytes, a RAW file is completed from its EXIF data.
pub open spec fn file_step(
    kind: FileKind,
    old: MetadataRecord,
    new: MetadataRecord,
    path: Seq<char>,
    bytes: Seq<u8>,
    exif: Result<Option<ExifBundle>, String>,
    r: Result<(), MetadataRejection>,
) -> bool {
    match kind {
        FileKind::Raster => raster_read(old, new, path, bytes, exif, r),
        FileKind::Raw => raw_finished(old, new, exif, r),
    }
}

/// The lower-case extension of `path`, or `canonical` when it has none.
pub open spec fn record_extension(path: Seq<char>, canonical: Seq<char>) -> Seq<char> {
    match lowered_extension(path) {
        Some(e) => e,
        None => canonical,
    }
}

/// How a file's record comes about: `fresh` is the record its extension
/// gives, with the file's size and modification time filled in, `exif` is
/// the EXIF outcome of its bytes, and the record step takes the filled
/// record to `done` with the outcome `step`.
pub open spec fn file_read(
    path: Seq<char>,
    size: u64,
    modified_at: Option<String>,
    bytes: Seq<u8>,
    include_gps: bool,
    fresh: MetadataRecord,
    exif: Result<Option<ExifBundle>, String>,
    done: MetadataRecord,
    step: Result<(), MetadataRejection>,
) -> bool {
    match format_for(path_extension(path)) {
        Some((kind, mime, canonical)) => {
            &&& fresh_record(fresh, path, mime, record_extension(path, canonical))
            &&& bundle_of_bytes(exif, bytes, include_gps)
            &&& file_step(
                kind,
                MetadataRecord { file_size_bytes: Some(size), modified_at: modified_at, ..fresh },
                done,
                path,
                bytes,
                exif,
                step,
            )
        },
        None => false,
    }
}

/// The metadata record of the file at `path` (its display text), `size`
/// bytes long, last modified at `modified_at` (seconds since the Unix
/// epoch, when known), whose contents are `bytes`; GPS only when
/// `include_gps`. `Err` says why the file has no record.
pub fn record_from_file(
    path: &str,
    size: u64,
    modified_at: Option<String>,
    bytes: &[u8],
    include_gps: bool,
) -> (r: Result<MetadataRecord, MetadataRejection>)
    ensures
        format_for(path_extension(path@)) is None ==> (r matches Err(MetadataRejection::UnsupportedExtension)),
        format_for(path_extension(path@)) is Some ==> exists|
            fresh: MetadataRecord,
            exif: Result<Option<ExifBundle>, String>,
            done: MetadataRecord,
            step: Result<(), MetadataRejection>,
        |
            #[trigger] file_read(path@, size, modified_at, bytes@, include_gps, fresh, exif, done, step)
                && match step {
                Ok(_) => r == Ok::<MetadataRecord, MetadataRejection>(done),
                Err(e) => r == Err::<MetadataRecord, MetadataRejection>(e),
            },
        r matches Ok(rec) ==> kept_record(rec),
{
    let (mut record, kind) = match begin_record(path) {
        Ok(x) => x,
        Err(e) => return Err(e),
    };
    let ghost fresh = record;
    fill_fs_metadata(&mut record, size, modified_at);
    let exif = exif_bundle_from_bytes(bytes, include_gps);
    let ghost exif_g = exif;
    let step = match kind {
        FileKind::Raster => read_raster_record(&mut record, path, bytes, exif),
        FileKind::Raw => finish_raw(&mut record, exif),
    };
    let ghost done = record;
    let ghost step_g = step;
    proof {
        assert(file_read(path@, size, modified_at, bytes@, include_gps, fresh, exif_g, done, step_g));
    }
    match step {
        Ok(()) => Ok(record),
        Err(e) => Err(e),
    }
}

/// A record that holds no GPS position.
pub open spec fn no_gps(r: MetadataRecord) -> bool {
    r.capture matches Some(c) ==> c.gps is None
}

/// Law: with GPS turned off, taking a file's EXIF data into its record
/// never adds a GPS position, neither for a raster file
/// (`apply_raster_exif`, as `read_raster_record` does) nor for a RAW file
/// (`finish_raw`, which applies the bundle as `exif_applied_but_color`
/// says).
pub proof fn law_no_gps_without_flag(
    old: MetadataRecord,
    new: MetadataRecord,
    outcome: Result<Option<ExifBundle>, String>,
    bytes: Seq<u8>,
)
    requires
        bundle_of_bytes(outcome, bytes, false),
        no_gps(old),
    ensures
        raster_exif_applied(old, new, outcome) ==> no_gps(new),
        (outcome matches Ok(Some(b)) && exif_applied_but_color(old, new, b)) ==> no_gps(new),
{
    if let Ok(Some(b)) = outcome {
        let f = choose|f: ExifFields| #[trigger] fields_read(f, bytes) && bundle_matches(Some(b), f, false);
        assert(bundle_matches(Some(b), f, false));
    }
}

/// The label of the color space of a RAW image whose EXIF data names none.
pub open spec fn raw_color_space() -> Seq<char> {
    "Unknown (RAW)"@
}

/// `new` and `r` are what completing the RAW record `old` from the EXIF
/// outcome `outcome` gives (see `finish_raw`).
pub open spec fn raw_finished(old: MetadataRecord, new: MetadataRecord, outcome: Result<Option<ExifBundle>, String>, r: Result<(), MetadataRejection>) -> bool {
    match outcome {
        Err(e) => {
            &&& r matches Err(MetadataRejection::RawExifUnreadable(m)) && m@ == e@
            &&& new == old
        },
        Ok(None) => {
            &&& r matches Err(MetadataRejection::RawWithoutExif)
            &&& new == old
        },
        Ok(Some(b)) => {
            let dims_known = b.dimensions is Some || (old.width is Some
                && old.height is Some);
            &&& dims_known ==> r is Ok
            &&& !dims_known ==> (r matches Err(MetadataRejection::RawWithoutDimensions))
            &&& exif_applied_but_color(old, new, b)
            &&& r is Err ==> exif_applied(old, new, b)
            &&& r is Ok ==> opt_chars(new.color_space) == Some(
                match (b.color_space, old.color_space) {
                    (Some(c), _) => c@,
                    (None, Some(c)) => c@,
                    (None, None) => raw_color_space(),
                },
            )
        },
    }
}

/// Completes the record of a RAW file from the outcome of reading its EXIF
/// data: the data must be readable and present and must give dimensions; a
/// missing color space is reported as unknown.
pub fn finish_raw(record: &mut MetadataRecord, outcome: Result<Option<ExifBundle>, String>) -> (r: Result<(), MetadataRejection>)
    ensures
        raw_finished(*old(record), *final(record), outcome, r),
{
    let bundle = match outcome {
        Err(e) => return Err(MetadataRejection::RawExifUnreadable(e)),
        Ok(None) => return Err(MetadataRejection::RawWithoutExif),
        Ok(Some(b)) => b,
    };
    apply_exif(record, bundle);
    if record.width.is_none() || record.height.is_none() {
        return Err(MetadataRejection::RawWithoutDimensions);
    }
    if record.color_space.is_none() {
        record.color_space = Some(String::from_str("Unknown (RAW)"));
    }
    Ok(())
}

/// A record that a run keeps: the file was read, with no error.
pub open spec fn kept_record(r: MetadataRecord) -> bool {
    r.status == RecordStatus::Success && r.error is None
}

/// The records and counts of a run over files: a record is kept for every
/// file that was read, and nothing for a file that failed.
pub struct MetadataRun {
    records: Vec<MetadataRecord>,
    tally: RunTally,
}

impl MetadataRun {
    /// The records kept so far, in the order the files were read.
    pub closed spec fn records(&self) -> Seq<MetadataRecord> {
        self.records@
    }

    /// The counts so far.
    pub closed spec fn counts(&self) -> TallyModel {
        self.tally@
    }

    pub open spec fn wf(&self) -> bool {
        &&& self.records().len() == self.counts().succeeded
        &&& self.counts().succeeded + self.counts().failed <= usize::MAX
        &&& fail_fast_kept(self.counts())
        &&& forall|i: int| 0 <= i < self.records().len() ==> #[trigger] kept_record(self.records()[i])
    }

    pub fn new(fail_fast: bool) -> (r: MetadataRun)
        ensures
            r.records() == Seq::<MetadataRecord>::empty(),
            r.counts() == empty_tally(fail_fast),
            r.wf(),
    {
        MetadataRun { records: Vec::new(), tally: RunTally::new(fail_fast) }
    }

    /// Whether the run has stopped at a failure.
    pub fn is_aborted(&self) -> (r: bool)
        ensures
            r == self.counts().aborted,
    {
        self.tally.aborted()
    }

    /// Files processed so far.
    pub fn processed(&self) -> (r: usize)
        requires
            self.wf(),
        ensures
            r == self.counts().succeeded + self.counts().failed,
    {
        self.tally.processed()
    }

    /// Keeps the record of a file that was read.
    pub fn add_record(&mut self, record: MetadataRecord)
        requires
            old(self).wf(),
            kept_record(record),
            !old(self).counts().aborted,
            old(self).counts().succeeded + old(self).counts().failed < usize::MAX,
        ensures
            final(self).records() == old(self).records().push(record),
            final(self).counts() == tally_step(old(self).counts(), true),
            final(self).wf(),
    {
        self.records.push(record);
        self.tally.record(true);
    }

    /// Counts a file that failed; returns whether the run stops here.
    pub fn add_failure(&mut self) -> (stop: bool)
        requires
            old(self).wf(),
            !old(self).counts().aborted,
            old(self).counts().succeeded + old(self).counts().failed < usize::MAX,
        ensures
            final(self).records() == old(self).records(),
            final(self).counts() == tally_step(old(self).counts(), false),
            stop == final(self).counts().aborted,
            final(self).wf(),
    {
        self.tally.record(false)
    }

    /// The records and the summary: the total is the number of files
    /// processed, successes plus failures.
    pub fn finish(self) -> (out: ProcessOutput)
        requires
            self.wf(),
        ensures
            out.records@ == self.records(),
            forall|i: int| 0 <= i < out.records@.len() ==> #[trigger] kept_record(out.records@[i]),
            out.summary.total == self.counts().succeeded + self.counts().failed,
            out.summary.succeeded == self.counts().succeeded,
            out.summary.failed == self.counts().failed,
            out.summary.aborted == self.counts().aborted,
            self.counts().fail_fast ==> out.summary.failed <= 1 && (out.summary.aborted <==> out.summary.failed == 1),
            !self.counts().fail_fast ==> !out.summary.aborted,
    {
        let succeeded = self.tally.succeeded();
        let failed = self.tally.failed();
        let aborted = self.tally.aborted();
        ProcessOutput {
            records: self.records,
            summary: BatchSummary { total: succeeded + failed, succeeded, failed, aborted },
        }
    }
}

} // verus!
