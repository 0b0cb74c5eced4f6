//! Pixel color types of decoded images, and what the metadata reports
//! about them.
use vstd::prelude::*;
use image::ColorType;

verus! {

/// The color types of `image::ColorType`.
#[derive(Clone, Copy, Debug, PartialEq, Eq, Structural)]
pub enum ColorKind {
    L8,
    La8,
    Rgb8,
    Rgba8,
    L16,
    La16,
    Rgb16,
    Rgba16,
    Rgb32F,
    Rgba32F,
}

/// Channels per pixel, as `ColorType::channel_count` gives them.
pub open spec fn channels_of(c: ColorKind) -> u8 {
    match c {
        ColorKind::L8 | ColorKind::L16 => 1,
        ColorKind::La8 | ColorKind::La16 => 2,
        ColorKind::Rgb8 | ColorKind::Rgb16 | ColorKind::Rgb32F => 3,
        ColorKind::Rgba8 | ColorKind::Rgba16 | ColorKind::Rgba32F => 4,
    }
}

/// Bits per pixel, as `ColorType::bits_per_pixel` gives them.
pub open spec fn bits_of(c: ColorKind) -> u16 {
    match c {
        ColorKind::L8 => 8,
        ColorKind::La8 | ColorKind::L16 => 16,
        ColorKind::Rgb8 => 24,
        ColorKind::Rgba8 | ColorKind::La16 => 32,
        ColorKind::Rgb16 => 48,
        ColorKind::Rgba16 => 64,
        ColorKind::Rgb32F => 96,
        ColorKind::Rgba32F => 128,
    }
}

/// Whether pixels carry alpha, as `ColorType::has_alpha` says.
pub open spec fn alpha_of(c: ColorKind) -> bool {
    match c {
        ColorKind::La8 | ColorKind::Rgba8 | ColorKind::La16 | ColorKind::Rgba16 | ColorKind::Rgba32F => true,
        _ => false,
    }
}

/// Bits per channel: bits per pixel divided by channels (0 without channels).
pub open spec fn depth_of(c: ColorKind) -> u8 {
    if channels_of(c) == 0 {
        0
    } else {
        (bits_of(c) / (channels_of(c) as u16)) as u8
    }
}

/// The color-space label reported for a color type.
pub open spec fn color_space_of(c: ColorKind) -> Seq<char> {
    match c {
        ColorKind::L8 | ColorKind::L16 | ColorKind::La8 | ColorKind::La16 => "Grayscale"@,
        ColorKind::Rgb8 | ColorKind::Rgb16 | ColorKind::Rgb32F => "RGB"@,
        ColorKind::Rgba8 | ColorKind::Rgba16 | ColorKind::Rgba32F => "RGB+Alpha"@,
    }
}

/// `image::ColorType::channel_count` on the color type `c`; the contract
/// is the table in the crate's source.
#[verifier::external_body]
pub(crate) fn channel_count(c: ColorKind) -> (r: u8)
    ensures
        r == channels_of(c),
{
    let t = match c {
        ColorKind::L8 => ColorType::L8,
        ColorKind::La8 => ColorType::La8,
        ColorKind::Rgb8 => ColorType::Rgb8,
        ColorKind::Rgba8 => ColorType::Rgba8,
        ColorKind::L16 => ColorType::L16,
        ColorKind::La16 => ColorType::La16,
        ColorKind::Rgb16 => ColorType::Rgb16,
        ColorKind::Rgba16 => ColorType::Rgba16,
        ColorKind::Rgb32F => ColorType::Rgb32F,
        ColorKind::Rgba32F => ColorType::Rgba32F,
    };
    t.channel_count()
}

/// `image::ColorType::bits_per_pixel` on the color type `c`; the contract
/// is the table in the crate's source (eight times the bytes per pixel).
#[verifier::external_body]
pub(crate) fn bits_per_pixel(c: ColorKind) -> (r: u16)
    ensures
        r == bits_of(c),
{
    let t = match c {
        ColorKind::L8 => ColorType::L8,
        ColorKind::La8 => ColorType::La8,
        ColorKind::Rgb8 => ColorType::Rgb8,
        ColorKind::Rgba8 => ColorType::Rgba8,
        ColorKind::L16 => ColorType::L16,
        ColorKind::La16 => ColorType::La16,
        ColorKind::Rgb16 => ColorType::Rgb16,
        ColorKind::Rgba16 => ColorType::Rgba16,
        ColorKind::Rgb32F => ColorType::Rgb32F,
        ColorKind::Rgba32F => ColorType::Rgba32F,
    };
    t.bits_per_pixel()
}

/// `image::ColorType::has_alpha` on the color type `c`; the contract is the
/// table in the crate's source.
#[verifier::external_body]
pub(crate) fn has_alpha(c: ColorKind) -> (r: bool)
    ensures
        r == alpha_of(c),
{
    let t = match c {
        ColorKind::L8 => ColorType::L8,
        ColorKind::La8 => ColorType::La8,
        ColorKind::Rgb8 => ColorType::Rgb8,
        ColorKind::Rgba8 => ColorType::Rgba8,
        ColorKind::L16 => ColorType::L16,
        ColorKind::La16 => ColorType::La16,
        ColorKind::Rgb16 => ColorType::Rgb16,
        ColorKind::Rgba16 => ColorType::Rgba16,
        ColorKind::Rgb32F => ColorType::Rgb32F,
        ColorKind::Rgba32F => ColorType::Rgba32F,
    };
    t.has_alpha()
}

/// Bits per channel of a color type.
pub fn bit_depth(c: ColorKind) -> (r: u8)
    ensures
        r == depth_of(c),
{
    let channels = channel_count(c);
    if channels == 0 {
        return 0;
    }
    (bits_per_pixel(c) / channels as u16) as u8
}

/// The color-space label for a color type.
pub fn infer_color_space(c: ColorKind) -> (r: String)
    ensures
        r@ == color_space_of(c),
{
    match c {
        ColorKind::L8 | ColorKind::L16 | ColorKind::La8 | ColorKind::La16 => String::from_str("Grayscale"),
        ColorKind::Rgb8 | ColorKind::Rgb16 | ColorKind::Rgb32F => String::from_str("RGB"),
        ColorKind::Rgba8 | ColorKind::Rgba16 | ColorKind::Rgba32F => String::from_str("RGB+Alpha"),
    }
}

} // verus!
