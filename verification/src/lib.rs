//! Image inspection and processing: format tables, EXIF interpretation,
//! metadata records, option validation, and the JPEG size search.
pub mod text;
pub mod paths;
pub mod codec;
pub mod raster;
pub mod quality_search;
pub mod compress;
pub mod convert;
pub mod resize;
pub mod tally;
pub mod color;
pub mod metadata;
pub mod batch;
