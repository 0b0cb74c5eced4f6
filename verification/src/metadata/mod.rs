//! Reading metadata from image files: the format tables, the EXIF fields,
//! the records, and the bookkeeping of a run over many files.
pub mod exif;
pub mod exif_read;
pub mod format;
pub mod model;
pub mod processor;
