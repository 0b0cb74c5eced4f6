//! Decoding and encoding through the `image` crate.
//!
//! Decoding and encoding run in memory and depend only on their arguments,
//! so their results are named: each name takes the encoded input bytes and
//! the file-name extension that the decoder is given as a hint (as
//! `ImageReader::open` gives it from a path). A `DecodedImage` is made only
//! by `decode_image` below, which keeps the bytes and the hint it decoded;
//! so the image it holds is always the decoding of those bytes, and the
//! encoders' results can be stated over them.
use vstd::prelude::*;
use image::{ColorType, DynamicImage, GenericImageView, ImageFormat, ImageReader};
use image::imageops::FilterType;
use crate::color::ColorKind;
use crate::metadata::format::RasterFormat;
use crate::raster::{opt_view, raster_extension};
use crate::resize::ResizeFilter;
use crate::text::ascii_lowercase;
use crate::text::opt_chars;

verus! {

#[verifier::external_type_specification]
#[verifier::external_body]
pub struct ExDynamicImage(DynamicImage);

/// The format the decoder settles on for `bytes` with the hint `ext`: the
/// format read from the leading bytes, else the one the extension names.
pub uninterp spec fn detected_format_of(bytes: Seq<u8>, ext: Option<Seq<char>>) -> Option<RasterFormat>;

/// `None` when `bytes` decode with the hint `ext`; else the error text.
pub uninterp spec fn decode_failure(bytes: Seq<u8>, ext: Option<Seq<char>>) -> Option<Seq<char>>;

/// Width and height of the image decoded from `bytes` with the hint `ext`.
pub uninterp spec fn decoded_dimensions_of(bytes: Seq<u8>, ext: Option<Seq<char>>) -> (u32, u32);

/// Color type of the image decoded from `bytes` with the hint `ext`.
pub uninterp spec fn decoded_color_of(bytes: Seq<u8>, ext: Option<Seq<char>>) -> Option<ColorKind>;

/// JPEG at `quality` of the image decoded from `bytes` with the hint `ext`:
/// the bytes, or the encoder's error text.
pub uninterp spec fn jpeg_encoding(bytes: Seq<u8>, ext: Option<Seq<char>>, quality: u8) -> Result<Seq<u8>, Seq<char>>;

/// PNG (best compression, adaptive filter) of the decoded image.
pub uninterp spec fn png_encoding(bytes: Seq<u8>, ext: Option<Seq<char>>) -> Result<Seq<u8>, Seq<char>>;

/// Lossless WebP of the decoded image.
pub uninterp spec fn webp_encoding(bytes: Seq<u8>, ext: Option<Seq<char>>) -> Result<Seq<u8>, Seq<char>>;

/// BMP, GIF or TIFF of the decoded image.
pub uninterp spec fn still_encoding(bytes: Seq<u8>, ext: Option<Seq<char>>, format: StillFormat) -> Result<Seq<u8>, Seq<char>>;

/// The image decoded from `bytes` with the hint `ext`, resampled to
/// `width` x `height` with `filter` and encoded in the format that the
/// extension `out_ext` names: the bytes, or the encoder's error text.
pub uninterp spec fn resized_encoding(
    bytes: Seq<u8>,
    ext: Option<Seq<char>>,
    width: u32,
    height: u32,
    filter: ResizeFilter,
    out_ext: Seq<char>,
) -> Result<Seq<u8>, Seq<char>>;

/// A still-image format written through `DynamicImage::write_to`.
#[derive(Clone, Copy, Debug, PartialEq, Eq, Structural)]
pub enum StillFormat {
    Bmp,
    Gif,
    Tiff,
}

/// An image decoded from encoded bytes, with those bytes and the
/// extension hint it was decoded with.
pub struct DecodedImage {
    source: Vec<u8>,
    ext: Option<String>,
    image: DynamicImage,
}

impl DecodedImage {
    /// The encoded bytes this image was decoded from.
    pub closed spec fn source(&self) -> Seq<u8> {
        self.source@
    }

    /// The extension hint this image was decoded with.
    pub closed spec fn ext(&self) -> Option<Seq<char>> {
        opt_chars(self.ext)
    }

    /// Decodes the encoded image `bytes`, with the file-name extension
    /// `ext` (if any) as the format to fall back on when the leading bytes
    /// name none.
    pub fn from_bytes(bytes: &[u8], ext: Option<&str>) -> (r: Result<DecodedImage, String>)
        ensures
            match r {
                Ok(d) => d.source() == bytes@ && d.ext() == opt_view(ext) && decode_failure(bytes@, opt_view(ext)) is None,
                Err(e) => decode_failure(bytes@, opt_view(ext)) == Some(e@),
            },
    {
        decode_image(bytes, ext)
    }

    /// Width and height of the decoded image.
    pub fn dimensions(&self) -> (r: (u32, u32))
        ensures
            r == decoded_dimensions_of(self.source(), self.ext()),
    {
        image_dimensions(self)
    }
}

/// `ImageReader::with_guessed_format` and `ImageReader::format` on `bytes`,
/// after `ImageReader::set_format` with `ImageFormat::from_extension(ext)`
/// when that names a format; formats other than the six listed are
/// reported as `Other`. The result is named, not stated.
#[verifier::external_body]
pub(crate) fn detect_format(bytes: &[u8], ext: Option<&str>) -> (r: Option<RasterFormat>)
    ensures
        r == detected_format_of(bytes@, opt_view(ext)),
{
    let mut reader = ImageReader::new(std::io::Cursor::new(bytes));
    if let Some(f) = ext.and_then(ImageFormat::from_extension) {
        reader.set_format(f);
    }
    match reader.with_guessed_format().ok()?.format()? {
        ImageFormat::Jpeg => Some(RasterFormat::Jpeg),
        ImageFormat::Png => Some(RasterFormat::Png),
        ImageFormat::WebP => Some(RasterFormat::WebP),
        ImageFormat::Tiff => Some(RasterFormat::Tiff),
        ImageFormat::Bmp => Some(RasterFormat::Bmp),
        ImageFormat::Gif => Some(RasterFormat::Gif),
        _ => Some(RasterFormat::Other),
    }
}

/// `ImageReader::decode` on `bytes` after the same format detection as
/// `detect_format`; the error is the `Display` text of the reader's error.
/// The result keeps `bytes` and `ext`; whether decoding succeeds, and the
/// error text, are named.
#[verifier::external_body]
pub(crate) fn decode_image(bytes: &[u8], ext: Option<&str>) -> (r: Result<DecodedImage, String>)
    ensures
        match r {
            Ok(d) => d.source() == bytes@ && d.ext() == opt_view(ext) && decode_failure(bytes@, opt_view(ext)) is None,
            Err(e) => decode_failure(bytes@, opt_view(ext)) == Some(e@),
        },
{
    let mut reader = ImageReader::new(std::io::Cursor::new(bytes));
    if let Some(f) = ext.and_then(ImageFormat::from_extension) {
        reader.set_format(f);
    }
    let reader = reader.with_guessed_format().map_err(|e| e.to_string())?;
    let image = reader.decode().map_err(|e| e.to_string())?;
    Ok(DecodedImage { source: bytes.to_vec(), ext: ext.map(|e| e.to_string()), image })
}

/// `GenericImageView::dimensions` of the decoded image (named).
#[verifier::external_body]
pub(crate) fn image_dimensions(d: &DecodedImage) -> (r: (u32, u32))
    ensures
        r == decoded_dimensions_of(d.source(), d.ext()),
{
    d.image.dimensions()
}

/// `DynamicImage::color` of the decoded image, as a `ColorKind` (named).
#[verifier::external_body]
pub(crate) fn image_color(d: &DecodedImage) -> (r: Option<ColorKind>)
    ensures
        r == decoded_color_of(d.source(), d.ext()),
{
    match d.image.color() {
        ColorType::L8 => Some(ColorKind::L8),
        ColorType::La8 => Some(ColorKind::La8),
        ColorType::Rgb8 => Some(ColorKind::Rgb8),
        ColorType::Rgba8 => Some(ColorKind::Rgba8),
        ColorType::L16 => Some(ColorKind::L16),
        ColorType::La16 => Some(ColorKind::La16),
        ColorType::Rgb16 => Some(ColorKind::Rgb16),
        ColorType::Rgba16 => Some(ColorKind::Rgba16),
        ColorType::Rgb32F => Some(ColorKind::Rgb32F),
        ColorType::Rgba32F => Some(ColorKind::Rgba32F),
        _ => None,
    }
}

/// JPEG at `quality` through `JpegEncoder::new_with_quality` and
/// `DynamicImage::write_with_encoder` (which first converts the pixels to a
/// color type the encoder takes); the error is the encoder's `Display` text.
#[verifier::external_body]
pub(crate) fn encode_jpeg(image: &DecodedImage, quality: u8) -> (r: Result<Vec<u8>, String>)
    ensures
        match r {
            Ok(b) => jpeg_encoding(image.source(), image.ext(), quality) == Ok::<Seq<u8>, Seq<char>>(b@),
            Err(e) => jpeg_encoding(image.source(), image.ext(), quality) == Err::<Seq<u8>, Seq<char>>(e@),
        },
{
    let mut bytes = Vec::new();
    let encoder = image::codecs::jpeg::JpegEncoder::new_with_quality(&mut bytes, quality);
    image.image.write_with_encoder(encoder).map_err(|e| e.to_string())?;
    Ok(bytes)
}

/// PNG with `CompressionType::Best` and `FilterType::Adaptive` through
/// `PngEncoder::new_with_quality` and `DynamicImage::write_with_encoder`.
#[verifier::external_body]
pub(crate) fn encode_png(image: &DecodedImage) -> (r: Result<Vec<u8>, String>)
    ensures
        match r {
            Ok(b) => png_encoding(image.source(), image.ext()) == Ok::<Seq<u8>, Seq<char>>(b@),
            Err(e) => png_encoding(image.source(), image.ext()) == Err::<Seq<u8>, Seq<char>>(e@),
        },
{
    let mut bytes = Vec::new();
    let encoder = image::codecs::png::PngEncoder::new_with_quality(
        &mut bytes,
        image::codecs::png::CompressionType::Best,
        image::codecs::png::FilterType::Adaptive,
    );
    image.image.write_with_encoder(encoder).map_err(|e| e.to_string())?;
    Ok(bytes)
}

/// Lossless WebP through `WebPEncoder::new_lossless` and
/// `DynamicImage::write_with_encoder`.
#[verifier::external_body]
pub(crate) fn encode_webp(image: &DecodedImage) -> (r: Result<Vec<u8>, String>)
    ensures
        match r {
            Ok(b) => webp_encoding(image.source(), image.ext()) == Ok::<Seq<u8>, Seq<char>>(b@),
            Err(e) => webp_encoding(image.source(), image.ext()) == Err::<Seq<u8>, Seq<char>>(e@),
        },
{
    let mut bytes = Vec::new();
    let encoder = image::codecs::webp::WebPEncoder::new_lossless(&mut bytes);
    image.image.write_with_encoder(encoder).map_err(|e| e.to_string())?;
    Ok(bytes)
}

/// BMP, GIF or TIFF through `DynamicImage::write_to` into an in-memory
/// cursor.
#[verifier::external_body]
pub(crate) fn encode_still(image: &DecodedImage, format: StillFormat) -> (r: Result<Vec<u8>, String>)
    ensures
        match r {
            Ok(b) => still_encoding(image.source(), image.ext(), format) == Ok::<Seq<u8>, Seq<char>>(b@),
            Err(e) => still_encoding(image.source(), image.ext(), format) == Err::<Seq<u8>, Seq<char>>(e@),
        },
{
    let target = match format {
        StillFormat::Bmp => ImageFormat::Bmp,
        StillFormat::Gif => ImageFormat::Gif,
        StillFormat::Tiff => ImageFormat::Tiff,
    };
    let mut cursor = std::io::Cursor::new(Vec::new());
    image.image.write_to(&mut cursor, target).map_err(|e| e.to_string())?;
    Ok(cursor.into_inner())
}

/// `DynamicImage::resize_exact` to `width` x `height` with the
/// `FilterType` of the same name as `filter`, then `DynamicImage::write_to`
/// an in-memory cursor in the format `ImageFormat::from_extension(out_ext)`
/// names (as `ImageFormat::from_path` does for a path with that
/// extension). The extension must name a raster format, so that it names
/// an encoder; the sizes must be positive.
#[verifier::external_body]
pub(crate) fn encode_resized(
    image: &DecodedImage,
    width: u32,
    height: u32,
    filter: ResizeFilter,
    out_ext: &str,
) -> (r: Result<Vec<u8>, String>)
    requires
        raster_extension(ascii_lowercase(out_ext@)),
        width >= 1,
        height >= 1,
    ensures
        match r {
            Ok(b) => resized_encoding(image.source(), image.ext(), width, height, filter, out_ext@) == Ok::<Seq<u8>, Seq<char>>(b@),
            Err(e) => resized_encoding(image.source(), image.ext(), width, height, filter, out_ext@) == Err::<Seq<u8>, Seq<char>>(e@),
        },
{
    let Some(format) = ImageFormat::from_extension(out_ext) else { return Err(String::new()) };
    let filter = match filter {
        ResizeFilter::Nearest => FilterType::Nearest,
        ResizeFilter::Triangle => FilterType::Triangle,
        ResizeFilter::CatmullRom => FilterType::CatmullRom,
        ResizeFilter::Gaussian => FilterType::Gaussian,
        ResizeFilter::Lanczos3 => FilterType::Lanczos3,
    };
    let mut cursor = std::io::Cursor::new(Vec::new());
    image.image.resize_exact(width, height, filter).write_to(&mut cursor, format).map_err(|e| e.to_string())?;
    Ok(cursor.into_inner())
}

} // verus!
