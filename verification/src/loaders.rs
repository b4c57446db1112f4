//! What the loaders for single formats decide besides decoding: the pixel
//! format that fits an image, the details that are reported, and where the
//! EXIF data begins in a block of metadata.

use vstd::prelude::*;
use crate::dbus::{BinaryData, FrameDetails, FrameRequest};
use crate::memory_format::MemoryFormat;

verus! {

/// The layout in which the HEIF decoder is asked for an image.
#[derive(Debug, Clone, Copy, PartialEq, Eq, Structural)]
pub enum RgbChroma {
    /// Three channels of 8 bits.
    Rgb,
    /// Four channels of 8 bits.
    Rgba,
    /// Three channels of 16 bits in the byte order of the machine.
    HdrRgb,
    /// Four channels of 16 bits in the byte order of the machine.
    HdrRgba,
}

/// The name of the format that a HEIF loader reports for a media type.
pub fn heif_format_name(mime_type: &str) -> (name: &'static str)
    ensures
        name@ == if mime_type@ == "image/heif"@ {
            "HEIC"@
        } else if mime_type@ == "image/avif"@ {
            "AVIF"@
        } else {
            "HEIF (Unknown)"@
        },
{
    let mime = String::from_str(mime_type);
    let heif = String::from_str("image/heif");
    let avif = String::from_str("image/avif");
    if mime == heif {
        "HEIC"
    } else if mime == avif {
        "AVIF"
    } else {
        "HEIF (Unknown)"
    }
}

/// The layout to ask for: 16 bits for an image of more than 8 bits per
/// channel, and a fourth channel for an image with alpha.
pub fn heif_chroma(luma_bits_per_pixel: u8, has_alpha_channel: bool) -> (chroma: RgbChroma)
    ensures
        chroma == match (luma_bits_per_pixel > 8, has_alpha_channel) {
            (true, true) => RgbChroma::HdrRgba,
            (true, false) => RgbChroma::HdrRgb,
            (false, true) => RgbChroma::Rgba,
            (false, false) => RgbChroma::Rgb,
        },
{
    if luma_bits_per_pixel > 8 {
        if has_alpha_channel {
            RgbChroma::HdrRgba
        } else {
            RgbChroma::HdrRgb
        }
    } else if has_alpha_channel {
        RgbChroma::Rgba
    } else {
        RgbChroma::Rgb
    }
}

/// The pixel format of a decoded HEIF image.
pub open spec fn heif_format(chroma: RgbChroma, has_alpha_channel: bool, premultiplied: bool) -> MemoryFormat {
    let wide = chroma == RgbChroma::HdrRgb || chroma == RgbChroma::HdrRgba;
    if !has_alpha_channel {
        if wide {
            MemoryFormat::R16g16b16
        } else {
            MemoryFormat::R8g8b8
        }
    } else if premultiplied {
        if wide {
            MemoryFormat::R16g16b16a16Premultiplied
        } else {
            MemoryFormat::R8g8b8a8Premultiplied
        }
    } else if wide {
        MemoryFormat::R16g16b16a16
    } else {
        MemoryFormat::R8g8b8a8
    }
}

pub fn heif_memory_format(chroma: RgbChroma, has_alpha_channel: bool, premultiplied: bool) -> (format:
    MemoryFormat)
    ensures
        format == heif_format(chroma, has_alpha_channel, premultiplied),
{
    match chroma {
        RgbChroma::HdrRgb | RgbChroma::HdrRgba => {
            if has_alpha_channel {
                if premultiplied {
                    MemoryFormat::R16g16b16a16Premultiplied
                } else {
                    MemoryFormat::R16g16b16a16
                }
            } else {
                MemoryFormat::R16g16b16
            }
        },
        RgbChroma::Rgb | RgbChroma::Rgba => {
            if has_alpha_channel {
                if premultiplied {
                    MemoryFormat::R8g8b8a8Premultiplied
                } else {
                    MemoryFormat::R8g8b8a8
                }
            } else {
                MemoryFormat::R8g8b8
            }
        },
    }
}

/// The four letters of a colour profile type as one number.
pub open spec fn four_cc(a: u8, b: u8, c: u8, d: u8) -> u32 {
    (a as u32 * 16777216 + b as u32 * 65536 + c as u32 * 256 + d as u32) as u32
}

/// Whether a colour profile of this type is an ICC profile: the types
/// `rICC` and `prof` are.
pub fn is_icc_profile_type(profile_type: u32) -> (b: bool)
    ensures
        b == (profile_type == four_cc(0x72, 0x49, 0x43, 0x43) || profile_type == four_cc(
            0x70,
            0x72,
            0x6f,
            0x66,
        )),
{
    profile_type == 0x72494343 || profile_type == 0x70726f66
}

/// A sample of `bits` bits, scaled to the range of 16 bits; bits that the
/// shift moves out are lost.
pub fn scale_hdr_sample(sample: u16, bits: u8) -> (scaled: u16)
    requires
        1 <= bits <= 16,
    ensures
        scaled == sample as int * vstd::arithmetic::power2::pow2((16 - bits) as nat) % 65536,
{
    let mut scaled: u16 = sample;
    let mut done: u8 = 0;
    proof {
        vstd::arithmetic::power2::lemma2_to64();
    }
    while done < 16 - bits
        invariant
            1 <= bits <= 16,
            0 <= done <= 16 - bits,
            scaled == sample as int * vstd::arithmetic::power2::pow2(done as nat) % 65536,
        decreases 16 - bits - done,
    {
        proof {
            let p = vstd::arithmetic::power2::pow2(done as nat) as int;
            vstd::arithmetic::power2::lemma_pow2_unfold((done + 1) as nat);
            assert(vstd::arithmetic::power2::pow2((done + 1) as nat) == 2 * p);
            vstd::arithmetic::div_mod::lemma_mul_mod_noop_general(sample as int * p, 2, 65536);
            assert(sample as int * (2 * p) == (sample as int * p) * 2) by (nonlinear_arith);
        }
        scaled = ((scaled as u32 * 2) % 65536) as u16;
        done += 1;
    }
    scaled
}

/// The details of a decoded HEIF frame: the colour profile, the bit depth
/// where it is above 8, and whether there is an alpha channel.
pub fn heif_frame_details(iccp: Option<BinaryData>, bits_per_pixel: u8, has_alpha_channel: bool) -> (details:
    FrameDetails)
    ensures
        details.iccp == iccp,
        details.cicp is None,
        details.bit_depth == if bits_per_pixel > 8 {
            Some(bits_per_pixel)
        } else {
            None
        },
        details.alpha_channel == Some(has_alpha_channel),
        details.grayscale is None,
{
    let mut details = FrameDetails::default();
    details.iccp = iccp;
    if bits_per_pixel > 8 {
        details.bit_depth = Some(bits_per_pixel);
    }
    details.alpha_channel = Some(has_alpha_channel);
    details
}

/// The number that the first four bytes hold, the first byte counting most.
pub open spec fn be_u32(bytes: Seq<u8>) -> int {
    bytes[0] as int * 16777216 + bytes[1] as int * 65536 + bytes[2] as int * 256 + bytes[3] as int
}

/// The EXIF data in a block of HEIF metadata. The block begins with four
/// bytes that hold the number of bytes to skip after them; the data is what
/// follows, and there has to be some.
pub open spec fn heif_exif(block: Seq<u8>) -> Option<Seq<u8>> {
    if block.len() >= 4 && block.len() > be_u32(block) + 4 {
        Some(block.subrange(be_u32(block) + 4, block.len() as int))
    } else {
        None
    }
}

pub fn heif_exif_payload(block: Vec<u8>) -> (exif: Option<Vec<u8>>)
    ensures
        exif is Some <==> heif_exif(block@) is Some,
        exif is Some ==> exif->0@ == heif_exif(block@)->0,
{
    if block.len() < 4 {
        return None;
    }
    let skip: u64 = block[0] as u64 * 16777216 + block[1] as u64 * 65536 + block[2] as u64 * 256
        + block[3] as u64;
    let start = skip + 4;
    if block.len() as u64 > start {
        let mut block = block;
        let exif = block.split_off(start as usize);
        Some(exif)
    } else {
        None
    }
}

/// The EXIF data in the content of an `Exif` box of a JPEG XL file: what
/// follows the first four bytes, where anything does.
pub fn jxl_exif_payload(content: Vec<u8>) -> (exif: Option<Vec<u8>>)
    ensures
        exif is Some <==> content@.len() > 4,
        exif is Some ==> exif->0@ == content@.subrange(4, content@.len() as int),
{
    if content.len() > 4 {
        let mut content = content;
        let exif = content.split_off(4);
        Some(exif)
    } else {
        None
    }
}

/// The details of a decoded JPEG XL frame: the colour profile, the bit
/// depth where it is not 8, and alpha channel and grayscale where the image
/// has them.
pub fn jxl_frame_details(iccp: Option<BinaryData>, alpha_channel: bool, grayscale: bool, bits: u8) -> (details:
    FrameDetails)
    ensures
        details.iccp == iccp,
        details.cicp is None,
        details.bit_depth == if bits != 8 {
            Some(bits)
        } else {
            None
        },
        details.alpha_channel == if alpha_channel {
            Some(true)
        } else {
            None
        },
        details.grayscale == if grayscale {
            Some(true)
        } else {
            None
        },
{
    let mut details = FrameDetails::default();
    details.iccp = iccp;
    if bits != 8 {
        details.bit_depth = Some(bits);
    }
    if alpha_channel {
        details.alpha_channel = Some(true);
    }
    if grayscale {
        details.grayscale = Some(true);
    }
    details
}

/// The largest width and height that the SVG renderer takes.
pub const RSVG_MAX_SIZE: u32 = 32767;

/// What the SVG loader renders for a request: the size of the whole image,
/// and the part of it to render, as x, y, width and height.
#[derive(Debug, Clone, Copy, PartialEq, Eq)]
pub struct Instruction {
    pub total_size: (u32, u32),
    pub area: (u32, u32, u32, u32),
}

/// What is rendered for a request of an image of `width` by `height`
/// pixels: the image in the size that the request asks for, else in its
/// own, and of it the part that the request asks for, else all.
pub open spec fn svg_plan(width: u32, height: u32, request: FrameRequest) -> Instruction {
    let total_size = match request.scale {
        Some(scale) => scale,
        None => (width, height),
    };
    Instruction {
        total_size,
        area: match request.clip {
            Some(clip) => clip,
            None => (0, 0, total_size.0, total_size.1),
        },
    }
}

pub fn svg_instruction(width: u32, height: u32, frame_request: &FrameRequest) -> (instruction:
    Instruction)
    ensures
        instruction == svg_plan(width, height, *frame_request),
{
    let total_size = match frame_request.scale {
        Some(scale) => scale,
        None => (width, height),
    };
    let area = match frame_request.clip {
        Some(clip) => clip,
        None => (0, 0, total_size.0, total_size.1),
    };
    Instruction { total_size, area }
}

/// Whether the renderer can render an image of this size.
pub fn svg_size_supported(total_size: (u32, u32)) -> (supported: bool)
    ensures
        supported == (total_size.0 <= RSVG_MAX_SIZE && total_size.1 <= RSVG_MAX_SIZE),
{
    !(total_size.1 > RSVG_MAX_SIZE || total_size.0 > RSVG_MAX_SIZE)
}

/// The pixel format of what the SVG renderer draws: four channels of 8 bits
/// that make one number with alpha in front, and so in the order of the
/// machine's bytes.
pub fn svg_memory_format(little_endian: bool) -> (format: MemoryFormat)
    ensures
        format == if little_endian {
            MemoryFormat::B8g8r8a8
        } else {
            MemoryFormat::A8r8g8b8
        },
{
    if little_endian {
        MemoryFormat::B8g8r8a8
    } else {
        MemoryFormat::A8r8g8b8
    }
}

} // verus!
