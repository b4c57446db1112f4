//! What loaders that decode with a general image decoder share: the pixel
//! format for a colour type, and which details of a frame are reported.

use vstd::prelude::*;
use crate::dbus::{BinaryData, FrameDetails, ImageInfo};
use crate::memory_format::MemoryFormat;

verus! {

/// The layout of the pixels that a decoder hands out.
#[derive(Debug, Clone, Copy, PartialEq, Eq, Structural)]
pub enum ColorType {
    L8,
    La8,
    Rgb8,
    Rgba8,
    L16,
    La16,
    Rgb16,
    Rgba16,
    Rgb32F,
    Rgba32F,
}

/// The layout of the pixels in the image file.
#[derive(Debug, Clone, Copy, PartialEq, Eq, Structural)]
pub enum ExtendedColorType {
    A8,
    L1,
    La1,
    Rgb1,
    Rgba1,
    L2,
    La2,
    Rgb2,
    Rgba2,
    L4,
    La4,
    Rgb4,
    Rgba4,
    L8,
    La8,
    Rgb8,
    Rgba8,
    L16,
    La16,
    Rgb16,
    Rgba16,
    Bgr8,
    Bgra8,
    Rgb32F,
    Rgba32F,
    Cmyk8,
    /// A layout without a name, with this number of bits per pixel.
    Unknown(u8),
}

impl ColorType {
    /// The pixel format in which pixels of this colour type are handed to
    /// the host. Both float layouts are handed over as three channels.
    pub open spec fn format(self) -> MemoryFormat {
        match self {
            ColorType::L8 => MemoryFormat::G8,
            ColorType::La8 => MemoryFormat::G8a8,
            ColorType::Rgb8 => MemoryFormat::R8g8b8,
            ColorType::Rgba8 => MemoryFormat::R8g8b8a8,
            ColorType::L16 => MemoryFormat::G16,
            ColorType::La16 => MemoryFormat::G16a16,
            ColorType::Rgb16 => MemoryFormat::R16g16b16,
            ColorType::Rgba16 => MemoryFormat::R16g16b16a16,
            ColorType::Rgb32F => MemoryFormat::R32g32b32Float,
            ColorType::Rgba32F => MemoryFormat::R32g32b32Float,
        }
    }
}

impl From<ColorType> for MemoryFormat {
    fn from(color_type: ColorType) -> (format: Self) {
        match color_type {
            ColorType::L8 => MemoryFormat::G8,
            ColorType::La8 => MemoryFormat::G8a8,
            ColorType::Rgb8 => MemoryFormat::R8g8b8,
            ColorType::Rgba8 => MemoryFormat::R8g8b8a8,
            ColorType::L16 => MemoryFormat::G16,
            ColorType::La16 => MemoryFormat::G16a16,
            ColorType::Rgb16 => MemoryFormat::R16g16b16,
            ColorType::Rgba16 => MemoryFormat::R16g16b16a16,
            ColorType::Rgb32F => MemoryFormat::R32g32b32Float,
            ColorType::Rgba32F => MemoryFormat::R32g32b32Float,
        }
    }
}

impl vstd::std_specs::convert::FromSpecImpl<ColorType> for MemoryFormat {
    open spec fn obeys_from_spec() -> bool {
        true
    }

    open spec fn from_spec(color_type: ColorType) -> Self {
        color_type.format()
    }
}

impl ExtendedColorType {
    /// Whether the layout is one whose details are reported: every layout
    /// but CMYK.
    pub open spec fn is_reported(self) -> bool {
        self != ExtendedColorType::Cmyk8
    }

    /// Whether the pixels have an alpha channel.
    pub open spec fn alpha(self) -> bool {
        match self {
            ExtendedColorType::A8
            | ExtendedColorType::La1
            | ExtendedColorType::La2
            | ExtendedColorType::La4
            | ExtendedColorType::La8
            | ExtendedColorType::La16
            | ExtendedColorType::Rgba1
            | ExtendedColorType::Rgba2
            | ExtendedColorType::Rgba4
            | ExtendedColorType::Rgba8
            | ExtendedColorType::Rgba16
            | ExtendedColorType::Bgra8
            | ExtendedColorType::Rgba32F => true,
            _ => false,
        }
    }

    /// Whether the pixels hold a luminance in place of colours.
    pub open spec fn grayscale(self) -> bool {
        match self {
            ExtendedColorType::L1
            | ExtendedColorType::L2
            | ExtendedColorType::L4
            | ExtendedColorType::L8
            | ExtendedColorType::L16
            | ExtendedColorType::La1
            | ExtendedColorType::La2
            | ExtendedColorType::La4
            | ExtendedColorType::La8
            | ExtendedColorType::La16 => true,
            _ => false,
        }
    }

    /// Number of bits of a channel; for a layout without a name, of a pixel.
    pub open spec fn bits(self) -> u8 {
        match self {
            ExtendedColorType::L1
            | ExtendedColorType::La1
            | ExtendedColorType::Rgb1
            | ExtendedColorType::Rgba1 => 1,
            ExtendedColorType::L2
            | ExtendedColorType::La2
            | ExtendedColorType::Rgb2
            | ExtendedColorType::Rgba2 => 2,
            ExtendedColorType::L4
            | ExtendedColorType::La4
            | ExtendedColorType::Rgb4
            | ExtendedColorType::Rgba4 => 4,
            ExtendedColorType::L16
            | ExtendedColorType::La16
            | ExtendedColorType::Rgb16
            | ExtendedColorType::Rgba16 => 16,
            ExtendedColorType::Rgb32F | ExtendedColorType::Rgba32F => 32,
            ExtendedColorType::Unknown(bits) => bits,
            _ => 8,
        }
    }
}

/// Whether the image has an alpha channel, whether it is grayscale, and the
/// bits of a channel; `None` for a layout whose details are not reported.
pub fn channel_details(color_type: ExtendedColorType) -> (details: Option<(bool, bool, u8)>)
    ensures
        details is Some <==> color_type.is_reported(),
        details is Some ==> details->0 == (
            color_type.alpha(),
            color_type.grayscale(),
            color_type.bits(),
        ),
{
    Some(
        match color_type {
            ExtendedColorType::A8 => (true, false, 8),
            ExtendedColorType::L1 => (false, true, 1),
            ExtendedColorType::La1 => (true, true, 1),
            ExtendedColorType::Rgb1 => (false, false, 1),
            ExtendedColorType::Rgba1 => (true, false, 1),
            ExtendedColorType::L2 => (false, true, 2),
            ExtendedColorType::La2 => (true, true, 2),
            ExtendedColorType::Rgb2 => (false, false, 2),
            ExtendedColorType::Rgba2 => (true, false, 2),
            ExtendedColorType::L4 => (false, true, 4),
            ExtendedColorType::La4 => (true, true, 4),
            ExtendedColorType::Rgb4 => (false, false, 4),
            ExtendedColorType::Rgba4 => (true, false, 4),
            ExtendedColorType::L8 => (false, true, 8),
            ExtendedColorType::La8 => (true, true, 8),
            ExtendedColorType::Rgb8 => (false, false, 8),
            ExtendedColorType::Rgba8 => (true, false, 8),
            ExtendedColorType::L16 => (false, true, 16),
            ExtendedColorType::La16 => (true, true, 16),
            ExtendedColorType::Rgb16 => (false, false, 16),
            ExtendedColorType::Rgba16 => (true, false, 16),
            ExtendedColorType::Bgr8 => (false, false, 8),
            ExtendedColorType::Bgra8 => (true, false, 8),
            ExtendedColorType::Rgb32F => (false, false, 32),
            ExtendedColorType::Rgba32F => (true, false, 32),
            ExtendedColorType::Unknown(bits) => (false, false, bits),
            ExtendedColorType::Cmyk8 => {
                return None;
            },
        },
    )
}

/// What a loader knows about its format: the name, and which properties of
/// an image can differ within the format and are therefore reported.
#[derive(Debug, Clone)]
pub struct Handler {
    pub format_name: Option<String>,
    /// The bit depth that is not worth reporting.
    pub default_bit_depth: Option<u8>,
    pub supports_two_alpha_modes: bool,
    pub supports_two_grayscale_modes: bool,
}

impl Default for Handler {
    fn default() -> (handler: Self)
        ensures
            handler.format_name is None,
            handler.default_bit_depth is None,
            !handler.supports_two_alpha_modes,
            !handler.supports_two_grayscale_modes,
    {
        Handler {
            format_name: None,
            default_bit_depth: None,
            supports_two_alpha_modes: false,
            supports_two_grayscale_modes: false,
        }
    }
}

impl Handler {
    pub fn format_name(self, format_name: &str) -> (handler: Self)
        ensures
            handler.format_name is Some && handler.format_name->0@ == format_name@,
            handler.default_bit_depth == self.default_bit_depth,
            handler.supports_two_alpha_modes == self.supports_two_alpha_modes,
            handler.supports_two_grayscale_modes == self.supports_two_grayscale_modes,
    {
        let mut handler = self;
        handler.format_name = Some(String::from_str(format_name));
        handler
    }

    pub fn default_bit_depth(self, default_bit_depth: u8) -> (handler: Self)
        ensures
            handler.default_bit_depth == Some(default_bit_depth),
            handler.format_name == self.format_name,
            handler.supports_two_alpha_modes == self.supports_two_alpha_modes,
            handler.supports_two_grayscale_modes == self.supports_two_grayscale_modes,
    {
        let mut handler = self;
        handler.default_bit_depth = Some(default_bit_depth);
        handler
    }

    pub fn supports_two_alpha_modes(self, supports_two_alpha_modes: bool) -> (handler: Self)
        ensures
            handler.supports_two_alpha_modes == supports_two_alpha_modes,
            handler.format_name == self.format_name,
            handler.default_bit_depth == self.default_bit_depth,
            handler.supports_two_grayscale_modes == self.supports_two_grayscale_modes,
    {
        let mut handler = self;
        handler.supports_two_alpha_modes = supports_two_alpha_modes;
        handler
    }

    pub fn supports_two_grayscale_modes(self, supports_two_grayscale_modes: bool) -> (handler: Self)
        ensures
            handler.supports_two_grayscale_modes == supports_two_grayscale_modes,
            handler.format_name == self.format_name,
            handler.default_bit_depth == self.default_bit_depth,
            handler.supports_two_alpha_modes == self.supports_two_alpha_modes,
    {
        let mut handler = self;
        handler.supports_two_grayscale_modes = supports_two_grayscale_modes;
        handler
    }

    /// The image information for an image of these dimensions: they, and
    /// the name of the format.
    pub fn info(&self, dimensions: (u32, u32)) -> (info: ImageInfo)
        ensures
            info.width == dimensions.0,
            info.height == dimensions.1,
            info.details.format_name is Some <==> self.format_name is Some,
            self.format_name is Some ==> info.details.format_name->0@ == self.format_name->0@,
            info.details.exif is None,
            info.details.xmp is None,
            !info.details.transformations_applied,
            info.details.dimensions_text is None,
    {
        let mut info = ImageInfo::new(dimensions.0, dimensions.1);
        info.details.format_name = match &self.format_name {
            Some(name) => Some(name.clone()),
            None => None,
        };
        info
    }

    /// The details of a frame: the colour profile, and of the bit depth, the
    /// alpha channel and the grayscale mode those that the format can vary
    /// in. The bit depth is left out where it is the usual one.
    pub fn frame_details(&self, iccp: Option<BinaryData>, color_type: ExtendedColorType) -> (details:
        FrameDetails)
        ensures
            details.iccp == iccp,
            details.cicp is None,
            details.bit_depth == if color_type.is_reported() && self.default_bit_depth != Some(
                color_type.bits(),
            ) {
                Some(color_type.bits())
            } else {
                None
            },
            details.alpha_channel == if color_type.is_reported() && self.supports_two_alpha_modes {
                Some(color_type.alpha())
            } else {
                None
            },
            details.grayscale == if color_type.is_reported() && self.supports_two_grayscale_modes {
                Some(color_type.grayscale())
            } else {
                None
            },
    {
        let mut details = FrameDetails::default();
        details.iccp = iccp;
        if let Some((alpha_channel, grayscale, bits)) = channel_details(color_type) {
            let usual = match self.default_bit_depth {
                Some(depth) => depth == bits,
                None => false,
            };
            if !usual {
                details.bit_depth = Some(bits);
            }
            if self.supports_two_alpha_modes {
                details.alpha_channel = Some(alpha_channel);
            }
            if self.supports_two_grayscale_modes {
                details.grayscale = Some(grayscale);
            }
        }
        details
    }
}

impl ImageInfo {
    /// The image information for dimensions that a decoder reports.
    pub fn from_decoder(dimensions: (u32, u32)) -> (info: Self)
        ensures
            info.width == dimensions.0,
            info.height == dimensions.1,
            info.details.format_name is None,
            info.details.exif is None,
            info.details.xmp is None,
            !info.details.transformations_applied,
            info.details.dimensions_text is None,
    {
        ImageInfo::new(dimensions.0, dimensions.1)
    }
}

/// The decoders of the general image loader.
#[derive(Debug, Clone, Copy, PartialEq, Eq, Structural)]
pub enum ImageRsDecoder {
    Bmp,
    Dds,
    Farbfeld,
    Gif,
    Ico,
    Jpeg,
    OpenExr,
    Png,
    Pnm,
    Qoi,
    Tga,
    Tiff,
    WebP,
}

/// A decoder with what is known about its format.
#[derive(Debug, Clone)]
pub struct ImageRsFormat {
    pub decoder: ImageRsDecoder,
    pub handler: Handler,
}

/// What the general image loader knows of a media type: the decoder, the
/// name of the format, the usual bit depth, and whether images of the
/// format come with and without alpha, and in colour and in grayscale.
pub open spec fn format_table(mime_type: Seq<char>) -> Option<
    (ImageRsDecoder, Seq<char>, Option<u8>, bool, bool),
> {
    if mime_type == "image/bmp"@ {
        Some((ImageRsDecoder::Bmp, "BMP"@, Some(8u8), false, false))
    } else if mime_type == "image/x-dds"@ {
        Some((ImageRsDecoder::Dds, "DDS"@, None, false, true))
    } else if mime_type == "image/x-ff"@ {
        Some((ImageRsDecoder::Farbfeld, "Farbfeld"@, Some(16u8), false, false))
    } else if mime_type == "image/gif"@ {
        Some((ImageRsDecoder::Gif, "GIF"@, Some(8u8), false, false))
    } else if mime_type == "image/vnd.microsoft.icon"@ {
        Some((ImageRsDecoder::Ico, "ICO"@, None, false, false))
    } else if mime_type == "image/jpeg"@ {
        Some((ImageRsDecoder::Jpeg, "JPEG"@, Some(8u8), false, true))
    } else if mime_type == "image/x-exr"@ {
        Some((ImageRsDecoder::OpenExr, "OpenEXR"@, Some(32u8), false, true))
    } else if mime_type == "image/png"@ {
        Some((ImageRsDecoder::Png, "PNG"@, Some(8u8), true, true))
    } else if mime_type == "image/x-portable-bitmap"@ {
        Some((ImageRsDecoder::Pnm, "PBM"@, Some(1u8), false, false))
    } else if mime_type == "image/x-portable-graymap"@ {
        Some((ImageRsDecoder::Pnm, "PGM"@, None, false, false))
    } else if mime_type == "image/x-portable-pixmap"@ {
        Some((ImageRsDecoder::Pnm, "PPM"@, None, false, false))
    } else if mime_type == "image/x-portable-anymap"@ {
        Some((ImageRsDecoder::Pnm, "PAM"@, None, false, false))
    } else if mime_type == "image/x-qoi"@ {
        Some((ImageRsDecoder::Qoi, "QOI"@, Some(8u8), true, false))
    } else if mime_type == "image/x-targa"@ || mime_type == "image/x-tga"@ {
        Some((ImageRsDecoder::Tga, "TGA"@, None, false, true))
    } else if mime_type == "image/tiff"@ {
        Some((ImageRsDecoder::Tiff, "TIFF"@, None, true, true))
    } else if mime_type == "image/webp"@ {
        Some((ImageRsDecoder::WebP, "WebP"@, Some(8u8), true, false))
    } else {
        None
    }
}

fn is_type(mime_type: &String, name: &str) -> (same: bool)
    ensures
        same == (mime_type@ == name@),
{
    let name = String::from_str(name);
    *mime_type == name
}

impl ImageRsFormat {
    /// The decoder for a media type with what is known about its format, or
    /// the error that names the media type that the loader does not know.
    pub fn create(mime_type: &str) -> (r: Result<Self, crate::error::LoaderError>)
        ensures
            r is Ok <==> format_table(mime_type@) is Some,
            r is Ok ==> {
                let format = r->Ok_0;
                let entry = format_table(mime_type@)->0;
                &&& format.decoder == entry.0
                &&& format.handler.format_name is Some
                &&& format.handler.format_name->0@ == entry.1
                &&& format.handler.default_bit_depth == entry.2
                &&& format.handler.supports_two_alpha_modes == entry.3
                &&& format.handler.supports_two_grayscale_modes == entry.4
            },
            r is Err ==> (r->Err_0 matches crate::error::LoaderError::UnsupportedImageFormat(name)
                && name@ == mime_type@),
    {
        let mime = String::from_str(mime_type);
        if is_type(&mime, "image/bmp") {
            Ok(Self::new(ImageRsDecoder::Bmp).format_name("BMP").default_bit_depth(8))
        } else if is_type(&mime, "image/x-dds") {
            Ok(Self::new(ImageRsDecoder::Dds).format_name("DDS").supports_two_grayscale_modes(true))
        } else if is_type(&mime, "image/x-ff") {
            Ok(Self::new(ImageRsDecoder::Farbfeld).format_name("Farbfeld").default_bit_depth(16))
        } else if is_type(&mime, "image/gif") {
            Ok(Self::new(ImageRsDecoder::Gif).format_name("GIF").default_bit_depth(8))
        } else if is_type(&mime, "image/vnd.microsoft.icon") {
            Ok(Self::new(ImageRsDecoder::Ico).format_name("ICO"))
        } else if is_type(&mime, "image/jpeg") {
            Ok(
                Self::new(ImageRsDecoder::Jpeg).format_name("JPEG").default_bit_depth(
                    8,
                ).supports_two_grayscale_modes(true),
            )
        } else if is_type(&mime, "image/x-exr") {
            Ok(
                Self::new(ImageRsDecoder::OpenExr).format_name("OpenEXR").default_bit_depth(
                    32,
                ).supports_two_grayscale_modes(true),
            )
        } else if is_type(&mime, "image/png") {
            Ok(
                Self::new(ImageRsDecoder::Png).format_name("PNG").supports_two_alpha_modes(
                    true,
                ).supports_two_grayscale_modes(true).default_bit_depth(8),
            )
        } else if is_type(&mime, "image/x-portable-bitmap") {
            Ok(Self::new(ImageRsDecoder::Pnm).format_name("PBM").default_bit_depth(1))
        } else if is_type(&mime, "image/x-portable-graymap") {
            Ok(Self::new(ImageRsDecoder::Pnm).format_name("PGM"))
        } else if is_type(&mime, "image/x-portable-pixmap") {
            Ok(Self::new(ImageRsDecoder::Pnm).format_name("PPM"))
        } else if is_type(&mime, "image/x-portable-anymap") {
            Ok(Self::new(ImageRsDecoder::Pnm).format_name("PAM"))
        } else if is_type(&mime, "image/x-qoi") {
            Ok(
                Self::new(ImageRsDecoder::Qoi).format_name("QOI").default_bit_depth(
                    8,
                ).supports_two_alpha_modes(true),
            )
        } else if is_type(&mime, "image/x-targa") || is_type(&mime, "image/x-tga") {
            Ok(Self::new(ImageRsDecoder::Tga).format_name("TGA").supports_two_grayscale_modes(true))
        } else if is_type(&mime, "image/tiff") {
            Ok(
                Self::new(ImageRsDecoder::Tiff).format_name("TIFF").supports_two_alpha_modes(
                    true,
                ).supports_two_grayscale_modes(true),
            )
        } else if is_type(&mime, "image/webp") {
            Ok(
                Self::new(ImageRsDecoder::WebP).format_name("WebP").default_bit_depth(
                    8,
                ).supports_two_alpha_modes(true),
            )
        } else {
            Err(crate::error::LoaderError::UnsupportedImageFormat(mime))
        }
    }

    pub fn new(decoder: ImageRsDecoder) -> (format: Self)
        ensures
            format.decoder == decoder,
            format.handler.format_name is None,
            format.handler.default_bit_depth is None,
            !format.handler.supports_two_alpha_modes,
            !format.handler.supports_two_grayscale_modes,
    {
        ImageRsFormat { decoder, handler: Handler::default() }
    }

    pub fn format_name(self, format_name: &str) -> (format: Self)
        ensures
            format.decoder == self.decoder,
            format.handler.format_name is Some && format.handler.format_name->0@ == format_name@,
            format.handler.default_bit_depth == self.handler.default_bit_depth,
            format.handler.supports_two_alpha_modes == self.handler.supports_two_alpha_modes,
            format.handler.supports_two_grayscale_modes == self.handler.supports_two_grayscale_modes,
    {
        ImageRsFormat { decoder: self.decoder, handler: self.handler.format_name(format_name) }
    }

    pub fn supports_two_alpha_modes(self, supports_two_alpha_modes: bool) -> (format: Self)
        ensures
            format.decoder == self.decoder,
            format.handler.supports_two_alpha_modes == supports_two_alpha_modes,
            format.handler.format_name == self.handler.format_name,
            format.handler.default_bit_depth == self.handler.default_bit_depth,
            format.handler.supports_two_grayscale_modes == self.handler.supports_two_grayscale_modes,
    {
        ImageRsFormat {
            decoder: self.decoder,
            handler: self.handler.supports_two_alpha_modes(supports_two_alpha_modes),
        }
    }

    pub fn supports_two_grayscale_modes(self, supports_two_grayscale_modes: bool) -> (format: Self)
        ensures
            format.decoder == self.decoder,
            format.handler.supports_two_grayscale_modes == supports_two_grayscale_modes,
            format.handler.format_name == self.handler.format_name,
            format.handler.default_bit_depth == self.handler.default_bit_depth,
            format.handler.supports_two_alpha_modes == self.handler.supports_two_alpha_modes,
    {
        ImageRsFormat {
            decoder: self.decoder,
            handler: self.handler.supports_two_grayscale_modes(supports_two_grayscale_modes),
        }
    }

    pub fn default_bit_depth(self, default_bit_depth: u8) -> (format: Self)
        ensures
            format.decoder == self.decoder,
            format.handler.default_bit_depth == Some(default_bit_depth),
            format.handler.format_name == self.handler.format_name,
            format.handler.supports_two_alpha_modes == self.handler.supports_two_alpha_modes,
            format.handler.supports_two_grayscale_modes == self.handler.supports_two_grayscale_modes,
    {
        ImageRsFormat {
            decoder: self.decoder,
            handler: self.handler.default_bit_depth(default_bit_depth),
        }
    }
}

impl ImageRsDecoder {
    /// Whether the decoder can hand out the frames of an animation.
    pub open spec fn has_frames(self) -> bool {
        self == ImageRsDecoder::Png || self == ImageRsDecoder::Gif || self == ImageRsDecoder::WebP
    }

    pub fn into_frames(self) -> (kind: Option<ImageRsDecoder>)
        ensures
            kind == if self.has_frames() {
                Some(self)
            } else {
                None
            },
    {
        match self {
            ImageRsDecoder::Png => Some(self),
            ImageRsDecoder::Gif => Some(self),
            ImageRsDecoder::WebP => Some(self),
            _ => None,
        }
    }

    /// Whether the image is treated as an animation. A GIF always is; for
    /// PNG and WebP, `animated` says what the file itself declares.
    pub fn is_animated(self, animated: bool) -> (b: bool)
        ensures
            b == (self == ImageRsDecoder::Gif || ((self == ImageRsDecoder::Png || self
                == ImageRsDecoder::WebP) && animated)),
    {
        match self {
            ImageRsDecoder::Gif => true,
            ImageRsDecoder::Png => animated,
            ImageRsDecoder::WebP => animated,
            _ => false,
        }
    }
}

} // verus!
