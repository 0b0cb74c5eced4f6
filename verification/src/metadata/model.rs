//! The metadata records and run summaries reported for image files.
use vstd::prelude::*;

verus! {

/// Whether a record describes a file that was read.
#[derive(Clone, Copy, Debug, PartialEq, Eq, Structural)]
pub enum RecordStatus {
    /// The file was read (reported as `ok`).
    Success,
    /// Reading the file failed (reported as `error`).
    Error,
}

/// The counts of a run over files.
#[derive(Clone, Copy, Debug, PartialEq, Eq, Structural)]
pub struct BatchSummary {
    pub total: usize,
    pub succeeded: usize,
    pub failed: usize,
    pub aborted: bool,
}

/// An unsigned EXIF rational `num / denom`.
#[derive(Clone, Copy, Debug, PartialEq, Eq, Structural)]
pub struct Ratio {
    pub num: u32,
    pub denom: u32,
}

/// A signed EXIF rational `num / denom`.
#[derive(Clone, Copy, Debug, PartialEq, Eq, Structural)]
pub struct SignedRatio {
    pub num: i32,
    pub denom: i32,
}

/// A GPS latitude or longitude as the EXIF rationals give it: degrees,
/// minutes and seconds as `rationals`, each denominator
/// non-zero, and whether it lies south or west.
#[derive(Clone, Copy, Debug, PartialEq, Eq, Structural)]
pub struct GpsCoordinate {
    pub degrees: Ratio,
    pub minutes: Ratio,
    pub seconds: Ratio,
    pub negative: bool,
}

/// A GPS altitude in meters as an EXIF rational (non-zero denominator), and
/// whether it lies below sea level.
#[derive(Clone, Copy, Debug, PartialEq, Eq, Structural)]
pub struct GpsAltitude {
    pub meters: Ratio,
    pub below_sea_level: bool,
}

/// The GPS position recorded with a photo; at least one part is present.
#[derive(Clone, Copy, Debug, PartialEq, Eq, Structural)]
pub struct GpsReading {
    pub latitude: Option<GpsCoordinate>,
    pub longitude: Option<GpsCoordinate>,
    pub altitude: Option<GpsAltitude>,
}

/// Camera settings and position recorded with a photo.
#[derive(Debug)]
pub struct CaptureInfo {
    pub camera_make: Option<String>,
    pub camera_model: Option<String>,
    pub lens_model: Option<String>,
    pub datetime_original: Option<String>,
    pub exposure_time: Option<String>,
    pub f_number: Option<String>,
    pub iso: Option<String>,
    pub focal_length: Option<String>,
    pub gps: Option<GpsReading>,
}

/// The metadata reported for one file.
#[derive(Debug)]
pub struct MetadataRecord {
    pub path: String,
    pub status: RecordStatus,
    pub error: Option<String>,
    pub warnings: Vec<String>,
    pub file_size_bytes: Option<u64>,
    pub modified_at: Option<String>,
    pub mime: Option<String>,
    pub extension: Option<String>,
    pub width: Option<u32>,
    pub height: Option<u32>,
    pub pixel_count: Option<u64>,
    pub channels: Option<u8>,
    pub bit_depth: Option<u8>,
    pub has_alpha: Option<bool>,
    pub orientation: Option<String>,
    pub color_space: Option<String>,
    pub capture: Option<CaptureInfo>,
}

/// The records of the files that were read, and the counts of the run.
#[derive(Debug)]
pub struct ProcessOutput {
    pub records: Vec<MetadataRecord>,
    pub summary: BatchSummary,
}

/// How a path is processed.
#[derive(Clone, Copy, Debug, PartialEq, Eq, Structural)]
pub struct ProcessOptions {
    pub include_gps: bool,
    pub include_hidden: bool,
    pub fail_fast: bool,
}

} // verus!
