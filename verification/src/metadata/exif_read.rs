//! Reading the EXIF block of an image file's bytes with the `exif` crate
//! (kamadak-exif), and taking from it the fields that the metadata reads.
//!
//! Parsing runs in memory and depends only on the bytes, so its results are
//! named over the bytes. A `ParsedExif` is made only by `parse_exif`, which
//! keeps the bytes it parsed, and a `FieldRef` only by `primary_field`; so
//! what is read from them can be stated over those bytes.
use vstd::prelude::*;
use ::exif::{Context, In, Reader, Tag};
use ::exif::Value::{Byte, Long, Rational, SByte, SLong, SRational, SShort, Short};
use crate::metadata::exif::{bundle_from_fields, bundle_matches, ExifBundle, ExifEntry, ExifFields, ExifValue, ExifValueView};
use crate::metadata::model::{Ratio, SignedRatio};

verus! {

#[verifier::external_type_specification]
#[verifier::external_body]
pub struct ExExif(::exif::Exif);

#[verifier::external_type_specification]
#[verifier::external_body]
pub struct ExField(::exif::Field);

/// The IFD group of an EXIF tag.
#[derive(Clone, Copy, Debug, PartialEq, Eq, Structural)]
pub enum TagGroup {
    Tiff,
    ExifIfd,
    Gps,
}

/// An EXIF tag: its group and its number within the group.
#[derive(Clone, Copy, Debug, PartialEq, Eq, Structural)]
pub struct ExifTag {
    pub group: TagGroup,
    pub number: u16,
}

/// `None` when `bytes` hold an EXIF block that `Reader::read_from_container`
/// reads; else the reader's error text.
pub uninterp spec fn exif_parse_failure(bytes: Seq<u8>) -> Option<Seq<char>>;

/// Whether the EXIF block of `bytes` has a field `tag` for the primary image.
pub uninterp spec fn exif_has_field(bytes: Seq<u8>, tag: ExifTag) -> bool;

/// The display text (with its unit) of the primary-image field `tag`.
pub uninterp spec fn exif_text_of(bytes: Seq<u8>, tag: ExifTag) -> Seq<char>;

/// The value of the primary-image field `tag`.
pub uninterp spec fn exif_value_of(bytes: Seq<u8>, tag: ExifTag) -> ExifValueView;

/// A parsed EXIF block and the bytes it was read from.
pub struct ParsedExif {
    source: Vec<u8>,
    exif: ::exif::Exif,
}

impl ParsedExif {
    pub closed spec fn source(&self) -> Seq<u8> {
        self.source@
    }
}

/// A field of a parsed EXIF block, with the tag it was looked up by.
pub struct FieldRef<'a> {
    parsed: &'a ParsedExif,
    tag: ExifTag,
    field: &'a ::exif::Field,
}

impl<'a> FieldRef<'a> {
    pub closed spec fn source(&self) -> Seq<u8> {
        self.parsed.source()
    }

    pub closed spec fn tag(&self) -> ExifTag {
        self.tag
    }
}

/// `Reader::read_from_container` on `bytes`; the error is the reader's
/// `Display` text. The result keeps `bytes`; success and the error text
/// are named.
#[verifier::external_body]
fn parse_exif(bytes: &[u8]) -> (r: Result<ParsedExif, String>)
    ensures
        match r {
            Ok(p) => p.source() == bytes@ && exif_parse_failure(bytes@) is None,
            Err(e) => exif_parse_failure(bytes@) == Some(e@),
        },
{
    let exif = Reader::new().read_from_container(&mut std::io::Cursor::new(bytes)).map_err(|e| e.to_string())?;
    Ok(ParsedExif { source: bytes.to_vec(), exif })
}

/// `Exif::get_field` with `In::PRIMARY` for `tag` (named).
#[verifier::external_body]
fn primary_field<'a>(p: &'a ParsedExif, tag: ExifTag) -> (r: Option<FieldRef<'a>>)
    ensures
        match r {
            Some(f) => f.source() == p.source() && f.tag() == tag && exif_has_field(p.source(), tag),
            None => !exif_has_field(p.source(), tag),
        },
{
    let group = match tag.group {
        TagGroup::Tiff => Context::Tiff,
        TagGroup::ExifIfd => Context::Exif,
        TagGroup::Gps => Context::Gps,
    };
    let field = p.exif.get_field(Tag(group, tag.number), In::PRIMARY)?;
    Some(FieldRef { parsed: p, tag, field })
}

/// `Field::display_value` with the units of the block
/// (`DisplayValue::with_unit`), as a `String` (named).
#[verifier::external_body]
fn field_text(f: &FieldRef) -> (r: String)
    ensures
        r@ == exif_text_of(f.source(), f.tag()),
{
    f.field.display_value().with_unit(&f.parsed.exif).to_string()
}

/// The field's `Value`, as an `ExifValue` (named).
#[verifier::external_body]
fn field_value(f: &FieldRef) -> (r: ExifValue)
    ensures
        r@ == exif_value_of(f.source(), f.tag()),
{
    match &f.field.value {
        Byte(v) => ExifValue::Byte(v.clone()),
        Short(v) => ExifValue::Short(v.clone()),
        Long(v) => ExifValue::Long(v.clone()),
        SByte(v) => ExifValue::SByte(v.clone()),
        SShort(v) => ExifValue::SShort(v.clone()),
        SLong(v) => ExifValue::SLong(v.clone()),
        Rational(v) => ExifValue::Rational(v.iter().map(|x| Ratio { num: x.num, denom: x.denom }).collect()),
        SRational(v) => ExifValue::SRational(v.iter().map(|x| SignedRatio { num: x.num, denom: x.denom }).collect()),
        _ => ExifValue::Other,
    }
}

/// `e` is what the EXIF block of `src` has for `tag`.
pub open spec fn entry_read(e: Option<ExifEntry>, src: Seq<u8>, tag: ExifTag) -> bool {
    match e {
        Some(x) => exif_has_field(src, tag) && x.text@ == exif_text_of(src, tag) && x.value@ == exif_value_of(src, tag),
        None => !exif_has_field(src, tag),
    }
}

pub open spec fn tiff(n: u16) -> ExifTag {
    ExifTag { group: TagGroup::Tiff, number: n }
}

pub open spec fn exif_ifd(n: u16) -> ExifTag {
    ExifTag { group: TagGroup::ExifIfd, number: n }
}

pub open spec fn gps(n: u16) -> ExifTag {
    ExifTag { group: TagGroup::Gps, number: n }
}

/// `f` holds the fields of the EXIF block of `src` that the metadata reads.
pub open spec fn fields_read(f: ExifFields, src: Seq<u8>) -> bool {
    &&& entry_read(f.make, src, tiff(0x10f))
    &&& entry_read(f.model, src, tiff(0x110))
    &&& entry_read(f.lens_model, src, exif_ifd(0xa434))
    &&& entry_read(f.datetime_original, src, exif_ifd(0x9003))
    &&& entry_read(f.exposure_time, src, exif_ifd(0x829a))
    &&& entry_read(f.f_number, src, exif_ifd(0x829d))
    &&& entry_read(f.photographic_sensitivity, src, exif_ifd(0x8827))
    &&& entry_read(f.iso_speed, src, exif_ifd(0x8833))
    &&& entry_read(f.focal_length, src, exif_ifd(0x920a))
    &&& entry_read(f.orientation, src, tiff(0x112))
    &&& entry_read(f.color_space, src, exif_ifd(0xa001))
    &&& entry_read(f.pixel_x_dimension, src, exif_ifd(0xa002))
    &&& entry_read(f.pixel_y_dimension, src, exif_ifd(0xa003))
    &&& entry_read(f.image_width, src, tiff(0x100))
    &&& entry_read(f.image_length, src, tiff(0x101))
    &&& entry_read(f.gps_latitude_ref, src, gps(0x1))
    &&& entry_read(f.gps_latitude, src, gps(0x2))
    &&& entry_read(f.gps_longitude_ref, src, gps(0x3))
    &&& entry_read(f.gps_longitude, src, gps(0x4))
    &&& entry_read(f.gps_altitude_ref, src, gps(0x5))
    &&& entry_read(f.gps_altitude, src, gps(0x6))
}

fn read_entry(p: &ParsedExif, group: TagGroup, number: u16) -> (r: Option<ExifEntry>)
    ensures
        entry_read(r, p.source(), ExifTag { group, number }),
{
    match primary_field(p, ExifTag { group, number }) {
        Some(f) => Some(ExifEntry { text: field_text(&f), value: field_value(&f) }),
        None => None,
    }
}

fn read_fields(p: &ParsedExif) -> (r: ExifFields)
    ensures
        fields_read(r, p.source()),
{
    ExifFields {
        make: read_entry(p, TagGroup::Tiff, 0x10f),
        model: read_entry(p, TagGroup::Tiff, 0x110),
        lens_model: read_entry(p, TagGroup::ExifIfd, 0xa434),
        datetime_original: read_entry(p, TagGroup::ExifIfd, 0x9003),
        exposure_time: read_entry(p, TagGroup::ExifIfd, 0x829a),
        f_number: read_entry(p, TagGroup::ExifIfd, 0x829d),
        photographic_sensitivity: read_entry(p, TagGroup::ExifIfd, 0x8827),
        iso_speed: read_entry(p, TagGroup::ExifIfd, 0x8833),
        focal_length: read_entry(p, TagGroup::ExifIfd, 0x920a),
        orientation: read_entry(p, TagGroup::Tiff, 0x112),
        color_space: read_entry(p, TagGroup::ExifIfd, 0xa001),
        pixel_x_dimension: read_entry(p, TagGroup::ExifIfd, 0xa002),
        pixel_y_dimension: read_entry(p, TagGroup::ExifIfd, 0xa003),
        image_width: read_entry(p, TagGroup::Tiff, 0x100),
        image_length: read_entry(p, TagGroup::Tiff, 0x101),
        gps_latitude: read_entry(p, TagGroup::Gps, 0x2),
        gps_latitude_ref: read_entry(p, TagGroup::Gps, 0x1),
        gps_longitude: read_entry(p, TagGroup::Gps, 0x4),
        gps_longitude_ref: read_entry(p, TagGroup::Gps, 0x3),
        gps_altitude: read_entry(p, TagGroup::Gps, 0x6),
        gps_altitude_ref: read_entry(p, TagGroup::Gps, 0x5),
    }
}

/// `r` is the EXIF bundle of `bytes` (see `exif_bundle_from_bytes`).
pub open spec fn bundle_of_bytes(r: Result<Option<ExifBundle>, String>, bytes: Seq<u8>, include_gps: bool) -> bool {
    match exif_parse_failure(bytes) {
        Some(m) => r matches Err(e) && e@ == m,
        None => r matches Ok(b) && exists|f: ExifFields| #[trigger] fields_read(f, bytes) && bundle_matches(b, f, include_gps),
    }
}

/// The EXIF bundle of an image file's `bytes`: the reader's error text when
/// the block cannot be read; else what the fields it holds contribute, GPS
/// only when `include_gps`.
pub fn exif_bundle_from_bytes(bytes: &[u8], include_gps: bool) -> (r: Result<Option<ExifBundle>, String>)
    ensures
        bundle_of_bytes(r, bytes@, include_gps),
{
    let parsed = match parse_exif(bytes) {
        Ok(p) => p,
        Err(e) => return Err(e),
    };
    let fields = read_fields(&parsed);
    let bundle = bundle_from_fields(&fields, include_gps);
    assert(fields_read(fields, bytes@));
    Ok(bundle)
}

} // verus!
