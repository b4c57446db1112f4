//! Values that the host and a loader exchange: the requests, the image
//! information and the frame.

use vstd::prelude::*;
use core::time::Duration;
use crate::error::DimensionTooLargerError;
use crate::memory_format::MemoryFormat;
use crate::save_conversion::{SafeConversion, SafeMath};

verus! {

/// Options that a loader gets when it is initialized.
#[derive(Debug, Clone)]
#[non_exhaustive]
pub struct InitializationDetails {
    /// Directory of the image, for formats that refer to neighbouring files.
    pub base_dir: Option<String>,
}

impl Default for InitializationDetails {
    fn default() -> (details: Self)
        ensures
            details.base_dir is None,
    {
        InitializationDetails { base_dir: None }
    }
}

/// Request to open an image.
#[derive(Debug)]
pub struct InitRequest {
    /// Descriptor from which the loader reads the image data.
    pub fd: i32,
    pub mime_type: String,
    pub details: InitializationDetails,
}

/// Request for a frame. A loader may ignore each part of it.
#[derive(Debug, Clone)]
#[non_exhaustive]
pub struct FrameRequest {
    /// Scale the image to this width and height.
    pub scale: Option<(u32, u32)>,
    /// Decode only this part of the image: x, y, width, height.
    pub clip: Option<(u32, u32, u32, u32)>,
}

impl Default for FrameRequest {
    fn default() -> (request: Self)
        ensures
            request.scale is None,
            request.clip is None,
    {
        FrameRequest { scale: None, clip: None }
    }
}

/// A sealed shared memory segment, named by its descriptor.
#[derive(Debug, Clone, Copy, PartialEq, Eq, Structural)]
pub struct BinaryData {
    pub memfd: i32,
}

/// Further image metadata.
#[derive(Debug, Clone)]
#[non_exhaustive]
pub struct ImageInfoDetails {
    pub format_name: Option<String>,
    pub exif: Option<BinaryData>,
    pub xmp: Option<BinaryData>,
    pub transformations_applied: bool,
    /// Textual description of the image dimensions.
    pub dimensions_text: Option<String>,
}

impl Default for ImageInfoDetails {
    fn default() -> (details: Self)
        ensures
            details.format_name is None,
            details.exif is None,
            details.xmp is None,
            !details.transformations_applied,
            details.dimensions_text is None,
    {
        ImageInfoDetails {
            format_name: None,
            exif: None,
            xmp: None,
            transformations_applied: false,
            dimensions_text: None,
        }
    }
}

/// Early image metadata. The dimensions are good for a first layout; each
/// frame carries its own.
#[derive(Debug, Clone)]
pub struct ImageInfo {
    pub width: u32,
    pub height: u32,
    pub details: ImageInfoDetails,
}

impl ImageInfo {
    pub fn new(width: u32, height: u32) -> (info: Self)
        ensures
            info.width == width,
            info.height == height,
            info.details.format_name is None,
            info.details.exif is None,
            info.details.xmp is None,
            !info.details.transformations_applied,
            info.details.dimensions_text is None,
    {
        ImageInfo { width, height, details: ImageInfoDetails::default() }
    }
}

/// More information about a frame.
#[derive(Debug)]
#[non_exhaustive]
pub struct FrameDetails {
    /// ICC colour profile.
    pub iccp: Option<BinaryData>,
    /// Coding-independent code points.
    pub cicp: Option<Vec<u8>>,
    /// Bit depth per channel, where it can differ for the format.
    pub bit_depth: Option<u8>,
    /// Whether the image has an alpha channel, where it can differ.
    pub alpha_channel: Option<bool>,
    /// Whether the image is grayscale, where it can differ.
    pub grayscale: Option<bool>,
}

impl FrameDetails {
    /// No detail is set.
    pub open spec fn is_empty(self) -> bool {
        &&& self.iccp is None
        &&& self.cicp is None
        &&& self.bit_depth is None
        &&& self.alpha_channel is None
        &&& self.grayscale is None
    }
}

impl FrameDetails {
    /// The two values hold the same details.
    pub open spec fn same_as(self, other: FrameDetails) -> bool {
        &&& self.iccp == other.iccp
        &&& self.cicp is Some <==> other.cicp is Some
        &&& self.cicp is Some ==> self.cicp->0@ == other.cicp->0@
        &&& self.bit_depth == other.bit_depth
        &&& self.alpha_channel == other.alpha_channel
        &&& self.grayscale == other.grayscale
    }
}

impl Clone for FrameDetails {
    fn clone(&self) -> (copy: Self)
        ensures
            copy.same_as(*self),
    {
        FrameDetails {
            iccp: self.iccp,
            cicp: match &self.cicp {
                Some(cicp) => Some(cicp.clone()),
                None => None,
            },
            bit_depth: self.bit_depth,
            alpha_channel: self.alpha_channel,
            grayscale: self.grayscale,
        }
    }
}

impl Default for FrameDetails {
    fn default() -> (details: Self)
        ensures
            details.is_empty(),
    {
        FrameDetails {
            iccp: None,
            cicp: None,
            bit_depth: None,
            alpha_channel: None,
            grayscale: None,
        }
    }
}

/// A frame as a loader hands it over.
#[derive(Debug)]
pub struct Frame {
    pub width: u32,
    pub height: u32,
    /// Distance in bytes between the starts of two rows.
    pub stride: u32,
    pub memory_format: MemoryFormat,
    pub texture: BinaryData,
    /// Time to show the frame in an animation; `None` for a still image.
    pub delay: Option<Duration>,
    pub details: FrameDetails,
}

impl Frame {
    /// Bytes of one row without padding.
    pub open spec fn row_bytes(self) -> int {
        self.width * self.memory_format.bytes_per_pixel()
    }

    /// Bytes that the rows of the frame span.
    pub open spec fn byte_size(self) -> int {
        self.stride * self.height
    }

    /// Size of the pixel data in bytes: stride times height. Fails when the
    /// product does not fit `usize`.
    pub fn n_bytes(&self) -> (r: Result<usize, DimensionTooLargerError>)
        ensures
            r is Ok <==> self.byte_size() <= usize::MAX,
            r is Ok ==> r->Ok_0 == self.byte_size(),
    {
        let stride = self.stride.try_usize()?;
        let height = self.height.try_usize()?;
        stride.smul(height)
    }

    /// A frame without row padding, delay or details. Fails when the length
    /// of a row does not fit `u32`.
    pub fn new(width: u32, height: u32, memory_format: MemoryFormat, texture: BinaryData) -> (r:
        Result<Self, DimensionTooLargerError>)
        ensures
            r is Ok <==> width * memory_format.bytes_per_pixel() <= u32::MAX,
            r is Ok ==> ({
                let frame = r->Ok_0;
                &&& frame.width == width
                &&& frame.height == height
                &&& frame.stride == width * memory_format.bytes_per_pixel()
                &&& frame.memory_format == memory_format
                &&& frame.texture == texture
                &&& frame.delay is None
                &&& frame.details.is_empty()
            }),
    {
        let stride = match memory_format.n_bytes().u32().checked_mul(width) {
            Some(stride) => stride,
            None => {
                return Err(DimensionTooLargerError);
            },
        };
        assert(stride == width * memory_format.bytes_per_pixel()) by (nonlinear_arith)
            requires
                stride == memory_format.bytes_per_pixel() * width,
        ;
        Ok(
            Frame {
                width,
                height,
                stride,
                memory_format,
                texture,
                delay: None,
                details: FrameDetails::default(),
            },
        )
    }
}

} // verus!
