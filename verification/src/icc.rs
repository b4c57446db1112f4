//! Colour transform of pixel bytes from the frame's ICC profile to sRGB. The
//! transform itself is the work of the colour management library; what is
//! decided here is the pixel layout that it is told, and which bytes it gets.

use vstd::prelude::*;
use crate::error::Error;
use crate::memory_format::{lemma_format_ranges, MemoryFormat};

verus! {

/// Number of colour channels in a pixel layout code of the colour
/// management library.
pub open spec fn layout_channels(code: u32) -> int {
    (code as int / 8) % 16
}

/// Number of channels besides the colour channels.
pub open spec fn layout_extra(code: u32) -> int {
    (code as int / 128) % 8
}

/// Bytes of one channel; the field holds 0 for eight bytes.
pub open spec fn layout_channel_bytes(code: u32) -> int {
    if code as int % 8 == 0 {
        8
    } else {
        code as int % 8
    }
}

/// Bytes of one pixel.
pub open spec fn layout_bytes_per_pixel(code: u32) -> int {
    layout_channel_bytes(code) * (layout_extra(code) + layout_channels(code))
}

/// Whether the channels are stored in the opposite order.
pub open spec fn layout_reversed(code: u32) -> bool {
    (code as int / 1024) % 2 == 1
}

/// Whether the channels are stored in planes, one after the other.
pub open spec fn layout_planar(code: u32) -> bool {
    (code as int / 4096) % 2 == 1
}

/// Whether the first channel is moved to the end, or the last to the front.
pub open spec fn layout_swap_first(code: u32) -> bool {
    (code as int / 16384) % 2 == 1
}

/// The colour space of the layout: 3 is gray, 4 is RGB.
pub open spec fn layout_colorspace(code: u32) -> int {
    (code as int / 65536) % 32
}

/// Whether the channels hold floating point numbers.
pub open spec fn layout_float(code: u32) -> bool {
    (code as int / 4194304) % 2 == 1
}

/// Whether the colour channels are multiplied by alpha.
pub open spec fn layout_premultiplied(code: u32) -> bool {
    (code as int / 8388608) % 2 == 1
}

/// The pixel layout code that describes a pixel format.
pub open spec fn layout_code(format: MemoryFormat) -> u32 {
    match format {
        MemoryFormat::B8g8r8a8Premultiplied => 8668313,
        MemoryFormat::A8r8g8b8Premultiplied => 8667289,
        MemoryFormat::R8g8b8a8Premultiplied => 8650905,
        MemoryFormat::B8g8r8a8 => 279705,
        MemoryFormat::A8r8g8b8 => 278681,
        MemoryFormat::R8g8b8a8 => 262297,
        MemoryFormat::A8b8g8r8 => 263321,
        MemoryFormat::R8g8b8 => 262169,
        MemoryFormat::B8g8r8 => 263193,
        MemoryFormat::R16g16b16 => 262170,
        MemoryFormat::R16g16b16a16Premultiplied => 8650906,
        MemoryFormat::R16g16b16a16 => 262298,
        MemoryFormat::R16g16b16Float => 4456474,
        MemoryFormat::R16g16b16a16Float => 4456602,
        MemoryFormat::R32g32b32Float => 4456476,
        MemoryFormat::R32g32b32a32FloatPremultiplied => 12845212,
        MemoryFormat::R32g32b32a32Float => 4456604,
        MemoryFormat::G8a8Premultiplied => 8585353,
        MemoryFormat::G8a8 => 196745,
        MemoryFormat::G8 => 196617,
        MemoryFormat::G16a16Premultiplied => 8585354,
        MemoryFormat::G16a16 => 196746,
        MemoryFormat::G16 => 196618,
    }
}

/// Whether the channels of the format are floating point numbers.
pub open spec fn is_float_format(format: MemoryFormat) -> bool {
    format == MemoryFormat::R16g16b16Float || format == MemoryFormat::R16g16b16a16Float || format
        == MemoryFormat::R32g32b32Float || format == MemoryFormat::R32g32b32a32FloatPremultiplied
        || format == MemoryFormat::R32g32b32a32Float
}

/// The layout code of a format says what the format table says: the size of
/// a pixel and of a channel, the alpha channel, premultiplication, and that
/// the pixels are stored one after the other.
pub proof fn lemma_layout_code(format: MemoryFormat)
    ensures
        layout_bytes_per_pixel(layout_code(format)) == format.bytes_per_pixel(),
        layout_channel_bytes(layout_code(format)) == format.channel_bytes(),
        layout_channels(layout_code(format)) + layout_extra(layout_code(format))
            == format.channels(),
        layout_extra(layout_code(format)) == if format.alpha() {
            1int
        } else {
            0int
        },
        layout_premultiplied(layout_code(format)) == format.premultiplied(),
        layout_float(layout_code(format)) == is_float_format(format),
        layout_colorspace(layout_code(format)) == if format.channels() <= 2 {
            3int
        } else {
            4int
        },
        !layout_planar(layout_code(format)),
{
    let code = layout_code(format);
    let bytes = layout_channel_bytes(code);
    let channels = layout_extra(code) + layout_channels(code);
    // Each code is a number, and so are its fields.
    match format {
        MemoryFormat::B8g8r8a8Premultiplied => {},
        MemoryFormat::A8r8g8b8Premultiplied => {},
        MemoryFormat::R8g8b8a8Premultiplied => {},
        MemoryFormat::B8g8r8a8 => {},
        MemoryFormat::A8r8g8b8 => {},
        MemoryFormat::R8g8b8a8 => {},
        MemoryFormat::A8b8g8r8 => {},
        MemoryFormat::R8g8b8 => {},
        MemoryFormat::B8g8r8 => {},
        MemoryFormat::R16g16b16 => {},
        MemoryFormat::R16g16b16a16Premultiplied => {},
        MemoryFormat::R16g16b16a16 => {},
        MemoryFormat::R16g16b16Float => {},
        MemoryFormat::R16g16b16a16Float => {},
        MemoryFormat::R32g32b32Float => {},
        MemoryFormat::R32g32b32a32FloatPremultiplied => {},
        MemoryFormat::R32g32b32a32Float => {},
        MemoryFormat::G8a8Premultiplied => {},
        MemoryFormat::G8a8 => {},
        MemoryFormat::G8 => {},
        MemoryFormat::G16a16Premultiplied => {},
        MemoryFormat::G16a16 => {},
        MemoryFormat::G16 => {},
    }
    assert(bytes == format.channel_bytes() && channels == format.channels());
    assert(bytes * channels == format.channels() * format.channel_bytes()) by (nonlinear_arith)
        requires
            bytes == format.channel_bytes(),
            channels == format.channels(),
    ;
}

/// The pixel layout code for a pixel format.
pub fn lcms_pixel_format(format: MemoryFormat) -> (code: u32)
    ensures
        code == layout_code(format),
{
    let plain: u32 = match format {
        MemoryFormat::B8g8r8a8Premultiplied | MemoryFormat::B8g8r8a8 => 279705,
        MemoryFormat::A8r8g8b8Premultiplied | MemoryFormat::A8r8g8b8 => 278681,
        MemoryFormat::R8g8b8a8Premultiplied | MemoryFormat::R8g8b8a8 => 262297,
        MemoryFormat::A8b8g8r8 => 263321,
        MemoryFormat::R8g8b8 => 262169,
        MemoryFormat::B8g8r8 => 263193,
        MemoryFormat::R16g16b16 => 262170,
        MemoryFormat::R16g16b16a16Premultiplied | MemoryFormat::R16g16b16a16 => 262298,
        MemoryFormat::R16g16b16Float => 4456474,
        MemoryFormat::R16g16b16a16Float => 4456602,
        MemoryFormat::R32g32b32Float => 4456476,
        MemoryFormat::R32g32b32a32FloatPremultiplied | MemoryFormat::R32g32b32a32Float => 4456604,
        MemoryFormat::G8a8Premultiplied | MemoryFormat::G8a8 => 196745,
        MemoryFormat::G8 => 196617,
        MemoryFormat::G16a16Premultiplied | MemoryFormat::G16a16 => 196746,
        MemoryFormat::G16 => 196618,
    };
    if format.is_premultiplied() {
        plain + 8388608
    } else {
        plain
    }
}

/// What a colour transform aims to keep where the two colour spaces do not
/// hold the same colours. The absolute intent is not offered: what it gives
/// depends on a setting of the colour library that is shared by the whole
/// process.
#[derive(Debug, Clone, Copy, PartialEq, Eq, Structural)]
pub enum Intent {
    /// The look of the image as a whole.
    Perceptual,
    /// The colours that both spaces hold, relative to the white of each.
    RelativeColorimetric,
    /// The saturation of the colours.
    Saturation,
}

/// The pixels after the colour transform from the ICC profile `profile` to
/// sRGB with the intent `intent`, for pixels that are read in the layout
/// `layout` and written in the layout `out_layout`; `None` where no
/// transform can be made of these.
pub uninterp spec fn icc_to_srgb(
    profile: Seq<u8>,
    layout: u32,
    out_layout: u32,
    intent: Intent,
    pixels: Seq<u8>,
) -> Option<Seq<u8>>;

/// Calls `lcms2::Profile::new_icc`, `lcms2::Profile::new_srgb`,
/// `lcms2::Transform::new` and `lcms2::Transform::transform_in_place`.
///
/// Not proved: that the bytes after the call are a function of the profile,
/// the two layouts, the intent and the bytes before it, and that they are
/// untouched where the profile cannot be opened or the transform cannot be
/// made; the error is then the text of the library's error. The library
/// asks for layouts that are not planar and for a whole number of pixels in
/// either layout.
#[verifier::external_body]
fn transform_to_srgb(
    profile: &[u8],
    layout: u32,
    out_layout: u32,
    intent: Intent,
    pixels: &mut [u8],
) -> (r: Result<(), String>)
    requires
        !layout_planar(layout),
        !layout_planar(out_layout),
        old(pixels)@.len() as int % layout_bytes_per_pixel(layout) == 0,
        old(pixels)@.len() as int % layout_bytes_per_pixel(out_layout) == 0,
    ensures
        final(pixels)@.len() == old(pixels)@.len(),
        match icc_to_srgb(profile@, layout, out_layout, intent, old(pixels)@) {
            Some(out) => r is Ok && final(pixels)@ == out,
            None => r is Err && final(pixels)@ == old(pixels)@,
        },
{
    let source = lcms2::Profile::new_icc(profile).map_err(|err| err.to_string())?;
    let target = lcms2::Profile::new_srgb();
    let intent = match intent {
        Intent::Perceptual => lcms2::Intent::Perceptual,
        Intent::RelativeColorimetric => lcms2::Intent::RelativeColorimetric,
        Intent::Saturation => lcms2::Intent::Saturation,
    };
    let (from, to) = (lcms2::PixelFormat(layout), lcms2::PixelFormat(out_layout));
    let transform = lcms2::Transform::new(&source, from, &target, to, intent);
    transform.map_err(|err| err.to_string())?.transform_in_place(pixels);
    Ok(())
}

/// The bytes of `pixels` after the colour transform of its whole pixels: the
/// bytes of a last, incomplete pixel stay. The transform keeps the layout
/// of the pixels and aims at the look of the image as a whole. Where no
/// transform can be made, nothing changes.
pub open spec fn icc_applied(profile: Seq<u8>, format: MemoryFormat, pixels: Seq<u8>) -> Seq<u8> {
    let whole = pixels.len() - pixels.len() % format.bytes_per_pixel();
    match icc_to_srgb(
        profile,
        layout_code(format),
        layout_code(format),
        Intent::Perceptual,
        pixels.subrange(0, whole),
    ) {
        Some(out) => out + pixels.subrange(whole, pixels.len() as int),
        None => pixels,
    }
}

/// Whether a transform can be made for these pixels.
pub open spec fn icc_applies(profile: Seq<u8>, format: MemoryFormat, pixels: Seq<u8>) -> bool {
    let whole = pixels.len() - pixels.len() % format.bytes_per_pixel();
    icc_to_srgb(
        profile,
        layout_code(format),
        layout_code(format),
        Intent::Perceptual,
        pixels.subrange(0, whole),
    ) is Some
}

/// Transforms the pixels in `buf` from the colour space of `icc_profile` to
/// sRGB. The buffer is read as one run of pixels of `memory_format`. On an
/// error the pixels are as before.
pub fn apply_transformation(icc_profile: &[u8], memory_format: MemoryFormat, buf: &mut [u8]) -> (r:
    Result<(), Error>)
    ensures
        final(buf)@ == icc_applied(icc_profile@, memory_format, old(buf)@),
        final(buf)@.len() == old(buf)@.len(),
        r is Ok <==> icc_applies(icc_profile@, memory_format, old(buf)@),
        r is Err ==> r->Err_0 is IccProfile,
{
    let layout = lcms_pixel_format(memory_format);
    let pixel_size = memory_format.n_bytes().usize();
    let len = buf.len();
    proof {
        lemma_format_ranges(memory_format);
    }
    let whole = len - len % pixel_size;
    proof {
        lemma_layout_code(memory_format);
        assert(whole as int % pixel_size as int == 0) by (nonlinear_arith)
            requires
                whole == len - len % pixel_size,
                pixel_size > 0,
        ;
    }
    let (head, tail) = buf.split_at_mut(whole);
    let result = transform_to_srgb(icc_profile, layout, layout, Intent::Perceptual, head);
    proof {
        assert(old(buf)@.subrange(0, whole as int) + old(buf)@.subrange(whole as int, len as int)
            =~= old(buf)@);
    }
    match result {
        Ok(()) => Ok(()),
        Err(text) => Err(Error::IccProfile(text)),
    }
}

} // verus!
