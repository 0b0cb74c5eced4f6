//! Interpreting EXIF fields: the text of a field, integer dimensions, the
//! GPS position, and the bundle of capture details read from a photo.
//!
//! The fields arrive as plain values: for each tag of interest, the field of
//! the primary image (if present) with its display text and raw value.
use vstd::prelude::*;
use crate::metadata::model::{CaptureInfo, GpsAltitude, GpsCoordinate, GpsReading, Ratio, SignedRatio};
use crate::text::{
    ascii_lowercase, chars_contain, chars_of, contains_seq, opt_chars, string_of_range, to_ascii_lowercase,
    trim_bounds, trimmed, trim_start, trim_end, is_white_space,
};

verus! {

/// The raw value of an EXIF field, for the value types the logic reads.
#[derive(Clone, Debug)]
pub enum ExifValue {
    Byte(Vec<u8>),
    Short(Vec<u16>),
    Long(Vec<u32>),
    SByte(Vec<i8>),
    SShort(Vec<i16>),
    SLong(Vec<i32>),
    Rational(Vec<Ratio>),
    SRational(Vec<SignedRatio>),
    /// Any other value type.
    Other,
}

/// The contents of an `ExifValue`.
pub enum ExifValueView {
    Byte(Seq<u8>),
    Short(Seq<u16>),
    Long(Seq<u32>),
    SByte(Seq<i8>),
    SShort(Seq<i16>),
    SLong(Seq<i32>),
    Rational(Seq<Ratio>),
    SRational(Seq<SignedRatio>),
    Other,
}

impl View for ExifValue {
    type V = ExifValueView;

    open spec fn view(&self) -> ExifValueView {
        match self {
            ExifValue::Byte(v) => ExifValueView::Byte(v@),
            ExifValue::Short(v) => ExifValueView::Short(v@),
            ExifValue::Long(v) => ExifValueView::Long(v@),
            ExifValue::SByte(v) => ExifValueView::SByte(v@),
            ExifValue::SShort(v) => ExifValueView::SShort(v@),
            ExifValue::SLong(v) => ExifValueView::SLong(v@),
            ExifValue::Rational(v) => ExifValueView::Rational(v@),
            ExifValue::SRational(v) => ExifValueView::SRational(v@),
            ExifValue::Other => ExifValueView::Other,
        }
    }
}

/// One EXIF field of the primary image: its display text (with unit) and
/// its raw value.
#[derive(Clone, Debug)]
pub struct ExifEntry {
    pub text: String,
    pub value: ExifValue,
}

/// The EXIF fields of the primary image that the metadata reads.
#[derive(Clone, Debug)]
pub struct ExifFields {
    pub make: Option<ExifEntry>,
    pub model: Option<ExifEntry>,
    pub lens_model: Option<ExifEntry>,
    pub datetime_original: Option<ExifEntry>,
    pub exposure_time: Option<ExifEntry>,
    pub f_number: Option<ExifEntry>,
    pub photographic_sensitivity: Option<ExifEntry>,
    pub iso_speed: Option<ExifEntry>,
    pub focal_length: Option<ExifEntry>,
    pub orientation: Option<ExifEntry>,
    pub color_space: Option<ExifEntry>,
    pub pixel_x_dimension: Option<ExifEntry>,
    pub pixel_y_dimension: Option<ExifEntry>,
    pub image_width: Option<ExifEntry>,
    pub image_length: Option<ExifEntry>,
    pub gps_latitude: Option<ExifEntry>,
    pub gps_latitude_ref: Option<ExifEntry>,
    pub gps_longitude: Option<ExifEntry>,
    pub gps_longitude_ref: Option<ExifEntry>,
    pub gps_altitude: Option<ExifEntry>,
    pub gps_altitude_ref: Option<ExifEntry>,
}

/// What the EXIF data contributes to a metadata record.
#[derive(Debug)]
pub struct ExifBundle {
    pub orientation: Option<String>,
    pub color_space: Option<String>,
    pub capture: Option<CaptureInfo>,
    pub dimensions: Option<(u32, u32)>,
}

/// A display text trimmed of white space and of one pair of enclosing
/// double quotes; `None` when nothing is left.
pub open spec fn normalized(raw: Seq<char>) -> Option<Seq<char>> {
    let t = trimmed(raw);
    if t.len() == 0 {
        None
    } else {
        let u = if t.len() >= 2 && t[0] == '"' && t[t.len() - 1] == '"' {
            t.subrange(1, t.len() - 1)
        } else {
            t
        };
        if u.len() == 0 {
            None
        } else {
            Some(u)
        }
    }
}

/// The text of a field, normalized.
pub open spec fn entry_text(e: Option<ExifEntry>) -> Option<Seq<char>> {
    match e {
        Some(x) => normalized(x.text@),
        None => None,
    }
}

/// An error message that only says the file has no EXIF data.
pub open spec fn no_exif_message(message: Seq<char>) -> bool {
    let m = ascii_lowercase(message);
    contains_seq(m, "no exif"@) || contains_seq(m, "not found"@)
}

/// The first value of a field as an unsigned 32-bit integer, when it has
/// one: unsigned integers as they are, signed ones when not negative,
/// rationals truncated toward zero when the denominator is not zero and the
/// quotient is not negative.
pub open spec fn value_u32(v: ExifValue) -> Option<u32> {
    match v {
        ExifValue::Byte(b) => if b@.len() > 0 { Some(b@[0] as u32) } else { None },
        ExifValue::Short(b) => if b@.len() > 0 { Some(b@[0] as u32) } else { None },
        ExifValue::Long(b) => if b@.len() > 0 { Some(b@[0]) } else { None },
        ExifValue::SByte(b) => if b@.len() > 0 && b@[0] >= 0 { Some(b@[0] as u32) } else { None },
        ExifValue::SShort(b) => if b@.len() > 0 && b@[0] >= 0 { Some(b@[0] as u32) } else { None },
        ExifValue::SLong(b) => if b@.len() > 0 && b@[0] >= 0 { Some(b@[0] as u32) } else { None },
        ExifValue::Rational(b) => if b@.len() > 0 && b@[0].denom != 0 {
            Some((b@[0].num / b@[0].denom) as u32)
        } else {
            None
        },
        ExifValue::SRational(b) => if b@.len() > 0 && b@[0].denom != 0 && (b@[0].num == 0 || (
        b@[0].num > 0) == (b@[0].denom > 0)) {
            Some((abs(b@[0].num as int) / abs(b@[0].denom as int)) as u32)
        } else {
            None
        },
        ExifValue::Other => None,
    }
}

pub open spec fn abs(x: int) -> int {
    if x < 0 {
        -x
    } else {
        x
    }
}

pub open spec fn entry_u32(e: Option<ExifEntry>) -> Option<u32> {
    match e {
        Some(x) => value_u32(x.value),
        None => None,
    }
}

pub open spec fn first_some(a: Option<u32>, b: Option<u32>) -> Option<u32> {
    match a {
        Some(x) => Some(x),
        None => b,
    }
}

/// Width and height: the pixel dimensions, else the image dimensions, when
/// both are positive.
pub open spec fn dimensions_of(f: ExifFields) -> Option<(u32, u32)> {
    let w = first_some(entry_u32(f.pixel_x_dimension), entry_u32(f.image_width));
    let h = first_some(entry_u32(f.pixel_y_dimension), entry_u32(f.image_length));
    match (w, h) {
        (Some(w), Some(h)) => if w > 0 && h > 0 { Some((w, h)) } else { None },
        _ => None,
    }
}

/// A reference text that puts a coordinate south or west.
pub open spec fn negative_reference(t: Option<Seq<char>>) -> bool {
    match t {
        Some(s) => s.len() > 0 && (s[0] == 'S' || s[0] == 'W' || s[0] == 's' || s[0] == 'w'),
        None => false,
    }
}

/// A coordinate: three rationals with non-zero denominators, signed by the
/// reference field.
pub open spec fn coordinate_of(coord: Option<ExifEntry>, reference: Option<ExifEntry>) -> Option<GpsCoordinate> {
    match coord {
        Some(e) => match e.value {
            ExifValue::Rational(v) => if v@.len() >= 3 && v@[0].denom != 0 && v@[1].denom != 0
                && v@[2].denom != 0 {
                Some(
                    GpsCoordinate {
                        degrees: v@[0],
                        minutes: v@[1],
                        seconds: v@[2],
                        negative: negative_reference(entry_text(reference)),
                    },
                )
            } else {
                None
            },
            _ => None,
        },
        None => None,
    }
}

/// Below sea level when the reference field's first byte is 1.
pub open spec fn below_sea_level(reference: Option<ExifEntry>) -> bool {
    match reference {
        Some(e) => match e.value {
            ExifValue::Byte(b) => b@.len() > 0 && b@[0] == 1,
            _ => false,
        },
        None => false,
    }
}

/// An altitude: a first rational with a non-zero denominator.
pub open spec fn altitude_of(alt: Option<ExifEntry>, reference: Option<ExifEntry>) -> Option<GpsAltitude> {
    match alt {
        Some(e) => match e.value {
            ExifValue::Rational(v) => if v@.len() > 0 && v@[0].denom != 0 {
                Some(GpsAltitude { meters: v@[0], below_sea_level: below_sea_level(reference) })
            } else {
                None
            },
            _ => None,
        },
        None => None,
    }
}

/// The GPS position, when any part of it is present.
pub open spec fn gps_of(f: ExifFields) -> Option<GpsReading> {
    let lat = coordinate_of(f.gps_latitude, f.gps_latitude_ref);
    let lon = coordinate_of(f.gps_longitude, f.gps_longitude_ref);
    let alt = altitude_of(f.gps_altitude, f.gps_altitude_ref);
    if lat is None && lon is None && alt is None {
        None
    } else {
        Some(GpsReading { latitude: lat, longitude: lon, altitude: alt })
    }
}

/// The ISO text: photographic sensitivity, else ISO speed.
pub open spec fn iso_text(f: ExifFields) -> Option<Seq<char>> {
    match entry_text(f.photographic_sensitivity) {
        Some(t) => Some(t),
        None => entry_text(f.iso_speed),
    }
}

pub open spec fn gps_for(f: ExifFields, include_gps: bool) -> Option<GpsReading> {
    if include_gps {
        gps_of(f)
    } else {
        None
    }
}

/// Whether any capture detail is present.
pub open spec fn capture_present(f: ExifFields, include_gps: bool) -> bool {
    ||| entry_text(f.make) is Some
    ||| entry_text(f.model) is Some
    ||| entry_text(f.lens_model) is Some
    ||| entry_text(f.datetime_original) is Some
    ||| entry_text(f.exposure_time) is Some
    ||| entry_text(f.f_number) is Some
    ||| iso_text(f) is Some
    ||| entry_text(f.focal_length) is Some
    ||| gps_for(f, include_gps) is Some
}

/// `c` holds the capture details of `f`.
pub open spec fn capture_matches(c: CaptureInfo, f: ExifFields, include_gps: bool) -> bool {
    &&& opt_chars(c.camera_make) == entry_text(f.make)
    &&& opt_chars(c.camera_model) == entry_text(f.model)
    &&& opt_chars(c.lens_model) == entry_text(f.lens_model)
    &&& opt_chars(c.datetime_original) == entry_text(f.datetime_original)
    &&& opt_chars(c.exposure_time) == entry_text(f.exposure_time)
    &&& opt_chars(c.f_number) == entry_text(f.f_number)
    &&& opt_chars(c.iso) == iso_text(f)
    &&& opt_chars(c.focal_length) == entry_text(f.focal_length)
    &&& c.gps == gps_for(f, include_gps)
}

/// `r` is the bundle of `f`: none when nothing is present; otherwise the
/// orientation, color space, capture details (when any) and dimensions.
pub open spec fn bundle_matches(r: Option<ExifBundle>, f: ExifFields, include_gps: bool) -> bool {
    let present = entry_text(f.orientation) is Some || entry_text(f.color_space) is Some
        || capture_present(f, include_gps) || dimensions_of(f) is Some;
    match r {
        None => !present,
        Some(b) => {
            &&& present
            &&& opt_chars(b.orientation) == entry_text(f.orientation)
            &&& opt_chars(b.color_space) == entry_text(f.color_space)
            &&& match b.capture {
                Some(c) => capture_present(f, include_gps) && capture_matches(c, f, include_gps),
                None => !capture_present(f, include_gps),
            }
            &&& b.dimensions == dimensions_of(f)
        },
    }
}

/// The display text `raw` trimmed of white space and of one pair of
/// enclosing double quotes; `None` when nothing is left.
pub fn normalize_text(raw: &str) -> (r: Option<String>)
    ensures
        opt_chars(r) == normalized(raw@),
{
    let v = chars_of(raw);
    let (a, b) = trim_bounds(&v);
    if a == b {
        return None;
    }
    let ghost t = v@.subrange(a as int, b as int);
    let (from, to) = if b - a >= 2 && v[a] == '"' && v[b - 1] == '"' {
        (a + 1, b - 1)
    } else {
        (a, b)
    };
    assert(v@.subrange(from as int, to as int) == if t.len() >= 2 && t[0] == '"' && t[t.len() - 1]
        == '"' {
        t.subrange(1, t.len() - 1)
    } else {
        t
    });
    if from == to {
        None
    } else {
        Some(string_of_range(&v, from, to))
    }
}

/// Whether an EXIF read error only says that the file has no EXIF data.
pub fn is_no_exif_error(message: &str) -> (r: bool)
    ensures
        r == no_exif_message(message@),
{
    let lower = to_ascii_lowercase(message);
    let v = chars_of(lower.as_str());
    chars_contain(&v, "no exif") || chars_contain(&v, "not found")
}

/// The normalized text of a field, if present.
pub fn field_text(entry: &Option<ExifEntry>) -> (r: Option<String>)
    ensures
        opt_chars(r) == entry_text(*entry),
{
    match entry {
        Some(e) => normalize_text(e.text.as_str()),
        None => None,
    }
}

/// The first value of a field as an unsigned 32-bit integer (see `value_u32`).
pub fn field_u32(entry: &Option<ExifEntry>) -> (r: Option<u32>)
    ensures
        r == entry_u32(*entry),
{
    match entry {
        None => None,
        Some(e) => match &e.value {
            ExifValue::Byte(b) => if b.len() > 0 { Some(b[0] as u32) } else { None },
            ExifValue::Short(b) => if b.len() > 0 { Some(b[0] as u32) } else { None },
            ExifValue::Long(b) => if b.len() > 0 { Some(b[0]) } else { None },
            ExifValue::SByte(b) => if b.len() > 0 && b[0] >= 0 { Some(b[0] as u32) } else { None },
            ExifValue::SShort(b) => if b.len() > 0 && b[0] >= 0 { Some(b[0] as u32) } else { None },
            ExifValue::SLong(b) => if b.len() > 0 && b[0] >= 0 { Some(b[0] as u32) } else { None },
            ExifValue::Rational(b) => if b.len() > 0 && b[0].denom != 0 {
                Some(b[0].num / b[0].denom)
            } else {
                None
            },
            ExifValue::SRational(b) => if b.len() > 0 && b[0].denom != 0 && (b[0].num == 0 || (
            b[0].num > 0) == (b[0].denom > 0)) {
                let n: i64 = b[0].num as i64;
                let d: i64 = b[0].denom as i64;
                let an: i64 = if n < 0 { -n } else { n };
                let ad: i64 = if d < 0 { -d } else { d };
                Some((an / ad) as u32)
            } else {
                None
            },
            ExifValue::Other => None,
        },
    }
}

/// Width and height from the EXIF fields, when both are known and positive.
pub fn parse_dimensions(fields: &ExifFields) -> (r: Option<(u32, u32)>)
    ensures
        r == dimensions_of(*fields),
{
    let width = match field_u32(&fields.pixel_x_dimension) {
        Some(w) => Some(w),
        None => field_u32(&fields.image_width),
    };
    let height = match field_u32(&fields.pixel_y_dimension) {
        Some(h) => Some(h),
        None => field_u32(&fields.image_length),
    };
    match (width, height) {
        (Some(w), Some(h)) => if w > 0 && h > 0 { Some((w, h)) } else { None },
        _ => None,
    }
}

fn parse_gps_coordinate(coord: &Option<ExifEntry>, reference: &Option<ExifEntry>) -> (r: Option<GpsCoordinate>)
    ensures
        r == coordinate_of(*coord, *reference),
{
    let e = match coord {
        Some(e) => e,
        None => return None,
    };
    match &e.value {
        ExifValue::Rational(v) => {
            if v.len() >= 3 && v[0].denom != 0 && v[1].denom != 0 && v[2].denom != 0 {
                let negative = match field_text(reference) {
                    Some(t) => {
                        let c = chars_of(t.as_str());
                        c.len() > 0 && (c[0] == 'S' || c[0] == 'W' || c[0] == 's' || c[0] == 'w')
                    },
                    None => false,
                };
                Some(GpsCoordinate { degrees: v[0], minutes: v[1], seconds: v[2], negative })
            } else {
                None
            }
        },
        _ => None,
    }
}

fn parse_gps_altitude(alt: &Option<ExifEntry>, reference: &Option<ExifEntry>) -> (r: Option<GpsAltitude>)
    ensures
        r == altitude_of(*alt, *reference),
{
    let e = match alt {
        Some(e) => e,
        None => return None,
    };
    match &e.value {
        ExifValue::Rational(v) => {
            if v.len() > 0 && v[0].denom != 0 {
                let below = match reference {
                    Some(r) => match &r.value {
                        ExifValue::Byte(b) => b.len() > 0 && b[0] == 1,
                        _ => false,
                    },
                    None => false,
                };
                Some(GpsAltitude { meters: v[0], below_sea_level: below })
            } else {
                None
            }
        },
        _ => None,
    }
}

/// The GPS position recorded in the EXIF fields, when any part is present.
pub fn parse_gps(fields: &ExifFields) -> (r: Option<GpsReading>)
    ensures
        r == gps_of(*fields),
{
    let latitude = parse_gps_coordinate(&fields.gps_latitude, &fields.gps_latitude_ref);
    let longitude = parse_gps_coordinate(&fields.gps_longitude, &fields.gps_longitude_ref);
    let altitude = parse_gps_altitude(&fields.gps_altitude, &fields.gps_altitude_ref);
    if latitude.is_none() && longitude.is_none() && altitude.is_none() {
        return None;
    }
    Some(GpsReading { latitude, longitude, altitude })
}

/// What the EXIF fields contribute to a record; GPS only when
/// `include_gps`; `None` when they contribute nothing.
pub fn bundle_from_fields(fields: &ExifFields, include_gps: bool) -> (r: Option<ExifBundle>)
    ensures
        bundle_matches(r, *fields, include_gps),
{
    let camera_make = field_text(&fields.make);
    let camera_model = field_text(&fields.model);
    let lens_model = field_text(&fields.lens_model);
    let datetime_original = field_text(&fields.datetime_original);
    let exposure_time = field_text(&fields.exposure_time);
    let f_number = field_text(&fields.f_number);
    let iso = match field_text(&fields.photographic_sensitivity) {
        Some(t) => Some(t),
        None => field_text(&fields.iso_speed),
    };
    let focal_length = field_text(&fields.focal_length);
    let gps = if include_gps {
        parse_gps(fields)
    } else {
        None
    };
    let capture_has_data = camera_make.is_some() || camera_model.is_some() || lens_model.is_some()
        || datetime_original.is_some() || exposure_time.is_some() || f_number.is_some()
        || iso.is_some() || focal_length.is_some() || gps.is_some();
    let capture = if capture_has_data {
        Some(
            CaptureInfo {
                camera_make,
                camera_model,
                lens_model,
                datetime_original,
                exposure_time,
                f_number,
                iso,
                focal_length,
                gps,
            },
        )
    } else {
        None
    };
    let orientation = field_text(&fields.orientation);
    let color_space = field_text(&fields.color_space);
    let dimensions = parse_dimensions(fields);
    if orientation.is_none() && color_space.is_none() && capture.is_none() && dimensions.is_none() {
        return None;
    }
    Some(ExifBundle { orientation, color_space, capture, dimensions })
}

/// Law: turning GPS off removes the GPS position and nothing else. Read
/// from the same fields, the bundle without GPS has no position, the bundle
/// with GPS carries the fields' position, and where both bundles exist they
/// agree on orientation, color space, dimensions and every other capture
/// detail.
pub proof fn law_gps_flag_only_removes_gps(f: ExifFields, with_gps: Option<ExifBundle>, without_gps: Option<ExifBundle>)
    requires
        bundle_matches(with_gps, f, true),
        bundle_matches(without_gps, f, false),
    ensures
        without_gps matches Some(b) ==> (b.capture matches Some(c) ==> c.gps is None),
        with_gps matches Some(b) ==> (b.capture matches Some(c) ==> c.gps == gps_of(f)),
        without_gps is Some ==> with_gps is Some,
        match (with_gps, without_gps) {
            (Some(b1), Some(b2)) => {
                &&& opt_chars(b1.orientation) == opt_chars(b2.orientation)
                &&& opt_chars(b1.color_space) == opt_chars(b2.color_space)
                &&& b1.dimensions == b2.dimensions
                &&& (b2.capture is Some ==> b1.capture is Some)
                &&& match (b1.capture, b2.capture) {
                    (Some(c1), Some(c2)) => {
                        &&& opt_chars(c1.camera_make) == opt_chars(c2.camera_make)
                        &&& opt_chars(c1.camera_model) == opt_chars(c2.camera_model)
                        &&& opt_chars(c1.lens_model) == opt_chars(c2.lens_model)
                        &&& opt_chars(c1.datetime_original) == opt_chars(c2.datetime_original)
                        &&& opt_chars(c1.exposure_time) == opt_chars(c2.exposure_time)
                        &&& opt_chars(c1.f_number) == opt_chars(c2.f_number)
                        &&& opt_chars(c1.iso) == opt_chars(c2.iso)
                        &&& opt_chars(c1.focal_length) == opt_chars(c2.focal_length)
                    },
                    _ => true,
                }
            },
            _ => true,
        },
{
}

/// Law: a GPS coordinate is negative (south or west) exactly when its
/// reference text, normalized, begins with `S`, `W`, `s` or `w`: the EXIF
/// references `S` and `W` give negative coordinates, `N` and `E` positive
/// ones. This holds of the latitude and longitude that `gps_of` reads.
pub proof fn law_gps_hemisphere(f: ExifFields)
    ensures
        forall|coord: Option<ExifEntry>, reference: Option<ExifEntry>|
            #[trigger] coordinate_of(coord, reference) matches Some(c) ==> (c.negative <==> (entry_text(reference) matches Some(t)
                && t.len() > 0 && (t[0] == 'S' || t[0] == 'W' || t[0] == 's' || t[0] == 'w'))),
        forall|coord: Option<ExifEntry>, reference: Option<ExifEntry>|
            #[trigger] coordinate_of(coord, reference) matches Some(c) ==> ((entry_text(reference) == Some("S"@)
                || entry_text(reference) == Some("W"@)) ==> c.negative),
        forall|coord: Option<ExifEntry>, reference: Option<ExifEntry>|
            #[trigger] coordinate_of(coord, reference) matches Some(c) ==> ((entry_text(reference) == Some("N"@)
                || entry_text(reference) == Some("E"@) || entry_text(reference) is None) ==> !c.negative),
        gps_of(f) matches Some(g) ==> (g.latitude matches Some(c) ==> (c.negative <==> (entry_text(f.gps_latitude_ref) matches Some(t)
            && t.len() > 0 && (t[0] == 'S' || t[0] == 'W' || t[0] == 's' || t[0] == 'w')))),
        gps_of(f) matches Some(g) ==> (g.longitude matches Some(c) ==> (c.negative <==> (entry_text(f.gps_longitude_ref) matches Some(t)
            && t.len() > 0 && (t[0] == 'S' || t[0] == 'W' || t[0] == 's' || t[0] == 'w')))),
{
    reveal_strlit("S");
    reveal_strlit("W");
    reveal_strlit("N");
    reveal_strlit("E");
}

/// Law: an altitude lies below sea level exactly when its reference field
/// is a byte value whose first byte is 1; the altitude kept is the first
/// rational, with a non-zero denominator.
pub proof fn law_gps_altitude(alt: Option<ExifEntry>, reference: Option<ExifEntry>)
    ensures
        altitude_of(alt, reference) matches Some(a) ==> (a.below_sea_level <==> (reference matches Some(r)
            && r.value matches ExifValue::Byte(b) && b@.len() > 0 && b@[0] == 1)),
        altitude_of(alt, reference) matches Some(a) ==> (alt matches Some(x) && x.value matches ExifValue::Rational(v)
            && v@.len() > 0 && a.meters == v@[0] && a.meters.denom != 0),
{
}

/// Law: a display text that has content and no white space at either end is
/// kept as it is, and the same text in double quotes loses the quotes.
pub proof fn law_normalized_text(t: Seq<char>)
    requires
        t.len() > 0,
        !is_white_space(t[0]),
        !is_white_space(t[t.len() - 1]),
        !(t.len() >= 2 && t[0] == '"' && t[t.len() - 1] == '"'),
    ensures
        normalized(t) == Some(t),
        normalized(seq!['"'] + t + seq!['"']) == Some(t),
{
    lemma_trimmed_unchanged(t);
    let q = seq!['"'] + t + seq!['"'];
    assert(q[0] == '"' && q[q.len() - 1] == '"');
    lemma_trimmed_unchanged(q);
    assert(q.subrange(1, q.len() - 1) =~= t);
}

proof fn lemma_trimmed_unchanged(t: Seq<char>)
    requires
        t.len() > 0,
        !is_white_space(t[0]),
        !is_white_space(t[t.len() - 1]),
    ensures
        trimmed(t) == t,
{
    assert(trim_start(t) == t);
    assert(trim_end(t) == t);
}

/// Law: the integer read from an unsigned rational is its quotient rounded
/// down: `q * denom <= num < (q + 1) * denom`; from an unsigned integer it
/// is the value itself.
pub proof fn law_rational_value_rounds_down(v: ExifValue)
    ensures
        match v {
            ExifValue::Rational(b) => b@.len() > 0 && b@[0].denom != 0 ==> (value_u32(v) matches Some(q)
                && q * b@[0].denom <= b@[0].num < (q + 1) * b@[0].denom),
            ExifValue::Long(b) => b@.len() > 0 ==> value_u32(v) == Some(b@[0]),
            ExifValue::Short(b) => b@.len() > 0 ==> value_u32(v) == Some(b@[0] as u32),
            _ => true,
        },
{
    if let ExifValue::Rational(b) = v {
        if b@.len() > 0 && b@[0].denom != 0 {
            let n = b@[0].num as int;
            let d = b@[0].denom as int;
            let q = n / d;
            assert(q * d <= n < (q + 1) * d) by (nonlinear_arith)
                requires
                    d > 0,
                    n >= 0,
                    q == n / d,
            ;
            assert(0 <= q <= n) by (nonlinear_arith)
                requires
                    d > 0,
                    n >= 0,
                    q == n / d,
            ;
        }
    }
}

/// Law: dimensions are reported only when both are positive, and the
/// pixel dimensions take precedence over the image width and length.
pub proof fn law_dimensions_prefer_pixel_fields(f: ExifFields)
    ensures
        dimensions_of(f) matches Some((w, h)) ==> w > 0 && h > 0,
        dimensions_of(f) matches Some((w, h)) ==> (entry_u32(f.pixel_x_dimension) matches Some(x) ==> w == x),
        dimensions_of(f) matches Some((w, h)) ==> (entry_u32(f.pixel_y_dimension) matches Some(y) ==> h == y),
        dimensions_of(f) matches Some((w, h)) ==> (entry_u32(f.pixel_x_dimension) is None ==> entry_u32(f.image_width) == Some(w)),
        dimensions_of(f) matches Some((w, h)) ==> (entry_u32(f.pixel_y_dimension) is None ==> entry_u32(f.image_length) == Some(h)),
        match (entry_u32(f.pixel_x_dimension), entry_u32(f.pixel_y_dimension)) {
            (Some(x), Some(y)) => x > 0 && y > 0 ==> dimensions_of(f) == Some((x, y)),
            _ => true,
        },
{
}

/// Law: the EXIF reader's "No Exif data found in ..." message, for any
/// container, only says that there is no EXIF data.
pub proof fn law_no_exif_message_recognized(container: Seq<char>)
    ensures
        no_exif_message("No Exif data found in "@ + container),
{
    reveal_strlit("No Exif data found in ");
    reveal_strlit("no exif");
    let m = "No Exif data found in "@ + container;
    let l = ascii_lowercase(m);
    assert(l.subrange(0, 7) =~= "no exif"@);
    assert(l.subrange(0, 0 + ("no exif"@.len() as int)) == "no exif"@);
}

} // verus!
