//! What a file extension says about a file: raster or camera RAW, its MIME
//! type and canonical extension; and the raster formats a decoder reports.
use vstd::prelude::*;
use crate::paths::{file_extension, path_extension};
use crate::raster::raster_extension;
use crate::text::{ascii_lowercase, chars_match, chars_of, lemma_lowercase_idempotent, to_ascii_lowercase};

verus! {

/// Whether a file holds a raster image or a camera RAW image.
#[derive(Clone, Copy, Debug, PartialEq, Eq, Structural)]
pub enum FileKind {
    Raster,
    Raw,
}

/// What is known of a file from its extension.
#[derive(Clone, Copy, Debug)]
pub struct FormatInfo {
    pub kind: FileKind,
    pub mime: &'static str,
    pub canonical_ext: &'static str,
}

/// The table entry `(kind, mime, canonical extension)` of a lower-case
/// extension, if it has one.
pub open spec fn format_entry(e: Seq<char>) -> Option<(FileKind, Seq<char>, Seq<char>)> {
    if e == "jpg"@ || e == "jpeg"@ {
        Some((FileKind::Raster, "image/jpeg"@, "jpg"@))
    } else if e == "png"@ {
        Some((FileKind::Raster, "image/png"@, "png"@))
    } else if e == "webp"@ {
        Some((FileKind::Raster, "image/webp"@, "webp"@))
    } else if e == "tiff"@ || e == "tif"@ {
        Some((FileKind::Raster, "image/tiff"@, "tiff"@))
    } else if e == "bmp"@ {
        Some((FileKind::Raster, "image/bmp"@, "bmp"@))
    } else if e == "gif"@ {
        Some((FileKind::Raster, "image/gif"@, "gif"@))
    } else if e == "arw"@ {
        Some((FileKind::Raw, "image/x-sony-arw"@, "arw"@))
    } else if e == "sr2"@ {
        Some((FileKind::Raw, "image/x-sony-sr2"@, "sr2"@))
    } else if e == "srf"@ {
        Some((FileKind::Raw, "image/x-sony-srf"@, "srf"@))
    } else if e == "nef"@ {
        Some((FileKind::Raw, "image/x-nikon-nef"@, "nef"@))
    } else if e == "nrw"@ {
        Some((FileKind::Raw, "image/x-nikon-nrw"@, "nrw"@))
    } else if e == "cr2"@ {
        Some((FileKind::Raw, "image/x-canon-cr2"@, "cr2"@))
    } else if e == "cr3"@ {
        Some((FileKind::Raw, "image/x-canon-cr3"@, "cr3"@))
    } else if e == "crw"@ {
        Some((FileKind::Raw, "image/x-canon-crw"@, "crw"@))
    } else if e == "dng"@ {
        Some((FileKind::Raw, "image/x-adobe-dng"@, "dng"@))
    } else {
        None
    }
}

/// The entry for a raw extension (as the path spells it): the table is
/// looked up with the extension in lower case.
pub open spec fn format_for(ext: Option<Seq<char>>) -> Option<(FileKind, Seq<char>, Seq<char>)> {
    match ext {
        Some(e) => format_entry(ascii_lowercase(e)),
        None => None,
    }
}

pub open spec fn info_matches(r: Option<FormatInfo>, entry: Option<(FileKind, Seq<char>, Seq<char>)>) -> bool {
    match (r, entry) {
        (Some(i), Some((k, m, c))) => i.kind == k && i.mime@ == m && i.canonical_ext@ == c,
        (None, None) => true,
        _ => false,
    }
}

fn info(kind: FileKind, mime: &'static str, canonical_ext: &'static str) -> (r: Option<FormatInfo>)
    ensures
        r matches Some(i) && i.kind == kind && i.mime == mime && i.canonical_ext == canonical_ext,
{
    Some(FormatInfo { kind, mime, canonical_ext })
}

/// What the extension `ext` (as the path spells it) says of a file.
pub fn format_info_from_extension(ext: &str) -> (r: Option<FormatInfo>)
    ensures
        info_matches(r, format_entry(ascii_lowercase(ext@))),
{
    let lower = to_ascii_lowercase(ext);
    let e = chars_of(lower.as_str());
    if chars_match(&e, "jpg") || chars_match(&e, "jpeg") {
        info(FileKind::Raster, "image/jpeg", "jpg")
    } else if chars_match(&e, "png") {
        info(FileKind::Raster, "image/png", "png")
    } else if chars_match(&e, "webp") {
        info(FileKind::Raster, "image/webp", "webp")
    } else if chars_match(&e, "tiff") || chars_match(&e, "tif") {
        info(FileKind::Raster, "image/tiff", "tiff")
    } else if chars_match(&e, "bmp") {
        info(FileKind::Raster, "image/bmp", "bmp")
    } else if chars_match(&e, "gif") {
        info(FileKind::Raster, "image/gif", "gif")
    } else if chars_match(&e, "arw") {
        info(FileKind::Raw, "image/x-sony-arw", "arw")
    } else if chars_match(&e, "sr2") {
        info(FileKind::Raw, "image/x-sony-sr2", "sr2")
    } else if chars_match(&e, "srf") {
        info(FileKind::Raw, "image/x-sony-srf", "srf")
    } else if chars_match(&e, "nef") {
        info(FileKind::Raw, "image/x-nikon-nef", "nef")
    } else if chars_match(&e, "nrw") {
        info(FileKind::Raw, "image/x-nikon-nrw", "nrw")
    } else if chars_match(&e, "cr2") {
        info(FileKind::Raw, "image/x-canon-cr2", "cr2")
    } else if chars_match(&e, "cr3") {
        info(FileKind::Raw, "image/x-canon-cr3", "cr3")
    } else if chars_match(&e, "crw") {
        info(FileKind::Raw, "image/x-canon-crw", "crw")
    } else if chars_match(&e, "dng") {
        info(FileKind::Raw, "image/x-adobe-dng", "dng")
    } else {
        None
    }
}

/// What the extension of `path` says of the file.
pub fn format_info_from_path(path: &str) -> (r: Option<FormatInfo>)
    ensures
        info_matches(r, format_for(path_extension(path@))),
{
    match file_extension(path) {
        Some(e) => format_info_from_extension(e.as_str()),
        None => None,
    }
}

/// Whether the extension of `path` names a supported raster or RAW format.
pub fn has_supported_extension(path: &str) -> (r: bool)
    ensures
        r == format_for(path_extension(path@)) is Some,
{
    format_info_from_path(path).is_some()
}

/// The formats a decoder may report, as far as the metadata tells them apart.
#[derive(Clone, Copy, Debug, PartialEq, Eq, Structural)]
pub enum RasterFormat {
    Jpeg,
    Png,
    WebP,
    Tiff,
    Bmp,
    Gif,
    /// Any other format the decoder knows.
    Other,
}

/// Whether a decoded format is one whose metadata is read.
pub fn is_supported_raster_format(format: RasterFormat) -> (r: bool)
    ensures
        r == (format != RasterFormat::Other),
{
    !matches!(format, RasterFormat::Other)
}

/// `(mime, canonical extension)` of a decoded format.
pub open spec fn raster_mime_and_ext(format: RasterFormat) -> Option<(Seq<char>, Seq<char>)> {
    match format {
        RasterFormat::Jpeg => Some(("image/jpeg"@, "jpg"@)),
        RasterFormat::Png => Some(("image/png"@, "png"@)),
        RasterFormat::WebP => Some(("image/webp"@, "webp"@)),
        RasterFormat::Tiff => Some(("image/tiff"@, "tiff"@)),
        RasterFormat::Bmp => Some(("image/bmp"@, "bmp"@)),
        RasterFormat::Gif => Some(("image/gif"@, "gif"@)),
        RasterFormat::Other => None,
    }
}

/// The MIME type and canonical extension of a decoded format.
pub fn raster_format_mime_and_ext(format: RasterFormat) -> (r: Option<(&'static str, &'static str)>)
    ensures
        match (r, raster_mime_and_ext(format)) {
            (Some((m, e)), Some((sm, se))) => m@ == sm && e@ == se,
            (None, None) => true,
            _ => false,
        },
{
    match format {
        RasterFormat::Jpeg => Some(("image/jpeg", "jpg")),
        RasterFormat::Png => Some(("image/png", "png")),
        RasterFormat::WebP => Some(("image/webp", "webp")),
        RasterFormat::Tiff => Some(("image/tiff", "tiff")),
        RasterFormat::Bmp => Some(("image/bmp", "bmp")),
        RasterFormat::Gif => Some(("image/gif", "gif")),
        RasterFormat::Other => None,
    }
}

/// Law: the extensions that the resize, compress, convert and batch
/// operations accept are exactly those that the metadata table lists as
/// raster formats.
pub proof fn law_raster_extensions_agree(e: Seq<char>)
    ensures
        raster_extension(e) <==> (format_entry(e) matches Some((k, _, _)) && k == FileKind::Raster),
{
}

/// Law: for every format a decoder reports, its MIME type and canonical
/// extension are those the extension table gives for that canonical
/// extension.
pub proof fn law_decoded_format_agrees_with_table(format: RasterFormat)
    ensures
        match raster_mime_and_ext(format) {
            Some((m, e)) => format_entry(e) == Some((FileKind::Raster, m, e)),
            None => format == RasterFormat::Other,
        },
{
    reveal_strlit("jpg");
    reveal_strlit("jpeg");
    reveal_strlit("png");
    reveal_strlit("webp");
    reveal_strlit("tiff");
    reveal_strlit("tif");
    reveal_strlit("bmp");
    reveal_strlit("gif");
    // Each listed extension differs from every earlier one in its first
    // character or in its length.
    assert("jpg"@[0] == 'j' && "jpeg"@.len() == 4 && "png"@[0] == 'p' && "webp"@[0] == 'w');
    assert("tiff"@[0] == 't' && "tif"@.len() == 3 && "bmp"@[0] == 'b' && "gif"@[0] == 'g');
}

/// Law: the format of a path does not depend on the case of its extension.
pub proof fn law_extension_case_insensitive(e: Seq<char>)
    ensures
        format_for(Some(e)) == format_for(Some(ascii_lowercase(e))),
{
    lemma_lowercase_idempotent(e);
}

/// A sequence with no upper-case ASCII letter is its own lower case.
proof fn lemma_lowercase_literal(s: Seq<char>)
    requires
        forall|i: int| 0 <= i < s.len() ==> !('A' <= #[trigger] s[i] && s[i] <= 'Z'),
    ensures
        ascii_lowercase(s) == s,
{
    assert(ascii_lowercase(s) =~= s);
}

/// Law: a table entry's canonical extension is in lower case and leads back
/// to the same entry.
pub proof fn law_canonical_extension_round_trip(e: Seq<char>)
    ensures
        format_entry(e) matches Some((k, m, c)) ==> ascii_lowercase(c) == c && format_entry(c) == Some((k, m, c)),
{
    reveal_strlit("jpg");
    reveal_strlit("jpeg");
    reveal_strlit("png");
    reveal_strlit("webp");
    reveal_strlit("tiff");
    reveal_strlit("tif");
    reveal_strlit("bmp");
    reveal_strlit("gif");
    reveal_strlit("arw");
    reveal_strlit("sr2");
    reveal_strlit("srf");
    reveal_strlit("nef");
    reveal_strlit("nrw");
    reveal_strlit("cr2");
    reveal_strlit("cr3");
    reveal_strlit("crw");
    reveal_strlit("dng");
    assert("jpg"@.len() == 3 && "jpg"@[0] == 'j' && "jpg"@[1] == 'p' && "jpg"@[2] == 'g');
    assert("jpeg"@.len() == 4 && "jpeg"@[0] == 'j' && "jpeg"@[1] == 'p' && "jpeg"@[2] == 'e' && "jpeg"@[3] == 'g');
    assert("png"@.len() == 3 && "png"@[0] == 'p' && "png"@[1] == 'n' && "png"@[2] == 'g');
    assert("webp"@.len() == 4 && "webp"@[0] == 'w' && "webp"@[1] == 'e' && "webp"@[2] == 'b' && "webp"@[3] == 'p');
    assert("tiff"@.len() == 4 && "tiff"@[0] == 't' && "tiff"@[1] == 'i' && "tiff"@[2] == 'f' && "tiff"@[3] == 'f');
    assert("tif"@.len() == 3 && "tif"@[0] == 't' && "tif"@[1] == 'i' && "tif"@[2] == 'f');
    assert("bmp"@.len() == 3 && "bmp"@[0] == 'b' && "bmp"@[1] == 'm' && "bmp"@[2] == 'p');
    assert("gif"@.len() == 3 && "gif"@[0] == 'g' && "gif"@[1] == 'i' && "gif"@[2] == 'f');
    assert("arw"@.len() == 3 && "arw"@[0] == 'a' && "arw"@[1] == 'r' && "arw"@[2] == 'w');
    assert("sr2"@.len() == 3 && "sr2"@[0] == 's' && "sr2"@[1] == 'r' && "sr2"@[2] == '2');
    assert("srf"@.len() == 3 && "srf"@[0] == 's' && "srf"@[1] == 'r' && "srf"@[2] == 'f');
    assert("nef"@.len() == 3 && "nef"@[0] == 'n' && "nef"@[1] == 'e' && "nef"@[2] == 'f');
    assert("nrw"@.len() == 3 && "nrw"@[0] == 'n' && "nrw"@[1] == 'r' && "nrw"@[2] == 'w');
    assert("cr2"@.len() == 3 && "cr2"@[0] == 'c' && "cr2"@[1] == 'r' && "cr2"@[2] == '2');
    assert("cr3"@.len() == 3 && "cr3"@[0] == 'c' && "cr3"@[1] == 'r' && "cr3"@[2] == '3');
    assert("crw"@.len() == 3 && "crw"@[0] == 'c' && "crw"@[1] == 'r' && "crw"@[2] == 'w');
    assert("dng"@.len() == 3 && "dng"@[0] == 'd' && "dng"@[1] == 'n' && "dng"@[2] == 'g');
    assert forall|s: Seq<char>| #[trigger] canonical_ext(s) implies ascii_lowercase(s) == s by {
        assert forall|i: int| 0 <= i < s.len() implies !('A' <= #[trigger] s[i] && s[i] <= 'Z') by {
            assert(i == 0 || i == 1 || i == 2 || i == 3);
        }
        lemma_lowercase_literal(s);
    }
    if let Some((k, m, c)) = format_entry(e) {
        assert(canonical_ext(c));
    }
}

/// The canonical extensions of the table.
pub open spec fn canonical_ext(s: Seq<char>) -> bool {
    s == "jpg"@ || s == "png"@ || s == "webp"@ || s == "tiff"@ || s == "bmp"@ || s == "gif"@ || s == "arw"@ || s == "sr2"@ || s == "srf"@ || s == "nef"@ || s == "nrw"@ || s == "cr2"@ || s == "cr3"@ || s == "crw"@ || s == "dng"@
}

/// Law: a raster format's MIME type is `image/` followed by its canonical
/// extension, except JPEG's (`image/jpeg`, canonical extension `jpg`); a
/// RAW format's MIME type is `image/x-`, the maker, `-` and its canonical
/// extension.
pub proof fn law_format_mime_types(e: Seq<char>)
    ensures
        format_entry(e) matches Some((k, m, c)) ==> {
            &&& (k == FileKind::Raster && c != "jpg"@) ==> m == "image/"@ + c
            &&& c == "jpg"@ ==> k == FileKind::Raster && m == "image/jpeg"@
            &&& k == FileKind::Raw ==> exists|maker: Seq<char>| m == "image/x-"@ + maker + "-"@ + c
        },
{
    reveal_strlit("-");
    reveal_strlit("adobe");
    reveal_strlit("arw");
    reveal_strlit("bmp");
    reveal_strlit("canon");
    reveal_strlit("cr2");
    reveal_strlit("cr3");
    reveal_strlit("crw");
    reveal_strlit("dng");
    reveal_strlit("gif");
    reveal_strlit("image/");
    reveal_strlit("image/bmp");
    reveal_strlit("image/gif");
    reveal_strlit("image/jpeg");
    reveal_strlit("image/png");
    reveal_strlit("image/tiff");
    reveal_strlit("image/webp");
    reveal_strlit("image/x-");
    reveal_strlit("image/x-adobe-dng");
    reveal_strlit("image/x-canon-cr2");
    reveal_strlit("image/x-canon-cr3");
    reveal_strlit("image/x-canon-crw");
    reveal_strlit("image/x-nikon-nef");
    reveal_strlit("image/x-nikon-nrw");
    reveal_strlit("image/x-sony-arw");
    reveal_strlit("image/x-sony-sr2");
    reveal_strlit("image/x-sony-srf");
    reveal_strlit("jpeg");
    reveal_strlit("jpg");
    reveal_strlit("nef");
    reveal_strlit("nikon");
    reveal_strlit("nrw");
    reveal_strlit("png");
    reveal_strlit("sony");
    reveal_strlit("sr2");
    reveal_strlit("srf");
    reveal_strlit("tif");
    reveal_strlit("tiff");
    reveal_strlit("webp");
    assert("jpg"@.len() == 3 && "jpg"@[0] == 'j' && "jpg"@[1] == 'p' && "jpg"@[2] == 'g');
    assert("jpeg"@.len() == 4 && "jpeg"@[0] == 'j' && "jpeg"@[1] == 'p' && "jpeg"@[2] == 'e' && "jpeg"@[3] == 'g');
    assert("png"@.len() == 3 && "png"@[0] == 'p' && "png"@[1] == 'n' && "png"@[2] == 'g');
    assert("webp"@.len() == 4 && "webp"@[0] == 'w' && "webp"@[1] == 'e' && "webp"@[2] == 'b' && "webp"@[3] == 'p');
    assert("tiff"@.len() == 4 && "tiff"@[0] == 't' && "tiff"@[1] == 'i' && "tiff"@[2] == 'f' && "tiff"@[3] == 'f');
    assert("tif"@.len() == 3 && "tif"@[0] == 't' && "tif"@[1] == 'i' && "tif"@[2] == 'f');
    assert("bmp"@.len() == 3 && "bmp"@[0] == 'b' && "bmp"@[1] == 'm' && "bmp"@[2] == 'p');
    assert("gif"@.len() == 3 && "gif"@[0] == 'g' && "gif"@[1] == 'i' && "gif"@[2] == 'f');
    assert("arw"@.len() == 3 && "arw"@[0] == 'a' && "arw"@[1] == 'r' && "arw"@[2] == 'w');
    assert("sr2"@.len() == 3 && "sr2"@[0] == 's' && "sr2"@[1] == 'r' && "sr2"@[2] == '2');
    assert("srf"@.len() == 3 && "srf"@[0] == 's' && "srf"@[1] == 'r' && "srf"@[2] == 'f');
    assert("nef"@.len() == 3 && "nef"@[0] == 'n' && "nef"@[1] == 'e' && "nef"@[2] == 'f');
    assert("nrw"@.len() == 3 && "nrw"@[0] == 'n' && "nrw"@[1] == 'r' && "nrw"@[2] == 'w');
    assert("cr2"@.len() == 3 && "cr2"@[0] == 'c' && "cr2"@[1] == 'r' && "cr2"@[2] == '2');
    assert("cr3"@.len() == 3 && "cr3"@[0] == 'c' && "cr3"@[1] == 'r' && "cr3"@[2] == '3');
    assert("crw"@.len() == 3 && "crw"@[0] == 'c' && "crw"@[1] == 'r' && "crw"@[2] == 'w');
    assert("dng"@.len() == 3 && "dng"@[0] == 'd' && "dng"@[1] == 'n' && "dng"@[2] == 'g');
    if e == "jpg"@ {
        assert("image/jpeg"@ =~= "image/jpeg"@);
    }
    if e == "jpeg"@ {
        assert("image/jpeg"@ =~= "image/jpeg"@);
    }
    if e == "png"@ {
        assert("image/png"@ =~= "image/"@ + "png"@);
    }
    if e == "webp"@ {
        assert("image/webp"@ =~= "image/"@ + "webp"@);
    }
    if e == "tiff"@ {
        assert("image/tiff"@ =~= "image/"@ + "tiff"@);
    }
    if e == "tif"@ {
        assert("image/tiff"@ =~= "image/"@ + "tiff"@);
    }
    if e == "bmp"@ {
        assert("image/bmp"@ =~= "image/"@ + "bmp"@);
    }
    if e == "gif"@ {
        assert("image/gif"@ =~= "image/"@ + "gif"@);
    }
    if e == "arw"@ {
        assert("image/x-sony-arw"@ =~= "image/x-"@ + "sony"@ + "-"@ + "arw"@);
    }
    if e == "sr2"@ {
        assert("image/x-sony-sr2"@ =~= "image/x-"@ + "sony"@ + "-"@ + "sr2"@);
    }
    if e == "srf"@ {
        assert("image/x-sony-srf"@ =~= "image/x-"@ + "sony"@ + "-"@ + "srf"@);
    }
    if e == "nef"@ {
        assert("image/x-nikon-nef"@ =~= "image/x-"@ + "nikon"@ + "-"@ + "nef"@);
    }
    if e == "nrw"@ {
        assert("image/x-nikon-nrw"@ =~= "image/x-"@ + "nikon"@ + "-"@ + "nrw"@);
    }
    if e == "cr2"@ {
        assert("image/x-canon-cr2"@ =~= "image/x-"@ + "canon"@ + "-"@ + "cr2"@);
    }
    if e == "cr3"@ {
        assert("image/x-canon-cr3"@ =~= "image/x-"@ + "canon"@ + "-"@ + "cr3"@);
    }
    if e == "crw"@ {
        assert("image/x-canon-crw"@ =~= "image/x-"@ + "canon"@ + "-"@ + "crw"@);
    }
    if e == "dng"@ {
        assert("image/x-adobe-dng"@ =~= "image/x-"@ + "adobe"@ + "-"@ + "dng"@);
    }
}

} // verus!
