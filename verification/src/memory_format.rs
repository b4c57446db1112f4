//! Pixel encodings and the sizes that follow from them.

use vstd::prelude::*;

verus! {

/// Layout of one pixel in memory.
#[derive(Debug, Clone, Copy, PartialEq, Eq, Structural)]
pub enum MemoryFormat {
    B8g8r8a8Premultiplied,
    A8r8g8b8Premultiplied,
    R8g8b8a8Premultiplied,
    B8g8r8a8,
    A8r8g8b8,
    R8g8b8a8,
    A8b8g8r8,
    R8g8b8,
    B8g8r8,
    R16g16b16,
    R16g16b16a16Premultiplied,
    R16g16b16a16,
    R16g16b16Float,
    R16g16b16a16Float,
    R32g32b32Float,
    R32g32b32a32FloatPremultiplied,
    R32g32b32a32Float,
    G8a8Premultiplied,
    G8a8,
    G8,
    G16a16Premultiplied,
    G16a16,
    G16,
}

/// Number of bytes that one pixel takes.
#[derive(Debug, Clone, Copy, PartialEq, Eq, Structural)]
pub enum MemoryFormatBytes {
    B1,
    B2,
    B3,
    B4,
    B6,
    B8,
    B12,
    B16,
}

impl MemoryFormat {
    /// Number of colour and alpha channels of a pixel.
    pub open spec fn channels(self) -> nat {
        match self {
            MemoryFormat::G8 | MemoryFormat::G16 => 1,
            MemoryFormat::G8a8Premultiplied
            | MemoryFormat::G8a8
            | MemoryFormat::G16a16Premultiplied
            | MemoryFormat::G16a16 => 2,
            MemoryFormat::R8g8b8
            | MemoryFormat::B8g8r8
            | MemoryFormat::R16g16b16
            | MemoryFormat::R16g16b16Float
            | MemoryFormat::R32g32b32Float => 3,
            _ => 4,
        }
    }

    /// Number of bytes that one channel takes.
    pub open spec fn channel_bytes(self) -> nat {
        match self {
            MemoryFormat::R16g16b16
            | MemoryFormat::R16g16b16a16Premultiplied
            | MemoryFormat::R16g16b16a16
            | MemoryFormat::R16g16b16Float
            | MemoryFormat::R16g16b16a16Float
            | MemoryFormat::G16a16Premultiplied
            | MemoryFormat::G16a16
            | MemoryFormat::G16 => 2,
            MemoryFormat::R32g32b32Float
            | MemoryFormat::R32g32b32a32FloatPremultiplied
            | MemoryFormat::R32g32b32a32Float => 4,
            _ => 1,
        }
    }

    /// Number of bytes that one pixel takes: every channel has the same width.
    pub open spec fn bytes_per_pixel(self) -> nat {
        self.channels() * self.channel_bytes()
    }

    /// Whether a pixel carries an alpha channel.
    pub open spec fn alpha(self) -> bool {
        match self {
            MemoryFormat::R8g8b8
            | MemoryFormat::B8g8r8
            | MemoryFormat::R16g16b16
            | MemoryFormat::R16g16b16Float
            | MemoryFormat::R32g32b32Float
            | MemoryFormat::G8
            | MemoryFormat::G16 => false,
            _ => true,
        }
    }

    /// Whether the colour channels are already multiplied by alpha.
    pub open spec fn premultiplied(self) -> bool {
        match self {
            MemoryFormat::B8g8r8a8Premultiplied
            | MemoryFormat::A8r8g8b8Premultiplied
            | MemoryFormat::R8g8b8a8Premultiplied
            | MemoryFormat::R16g16b16a16Premultiplied
            | MemoryFormat::R32g32b32a32FloatPremultiplied
            | MemoryFormat::G8a8Premultiplied
            | MemoryFormat::G16a16Premultiplied => true,
            _ => false,
        }
    }

    /// Bytes per pixel.
    pub fn n_bytes(self) -> (bytes: MemoryFormatBytes)
        ensures
            bytes.value() == self.bytes_per_pixel(),
    {
        match self {
            MemoryFormat::B8g8r8a8Premultiplied => MemoryFormatBytes::B4,
            MemoryFormat::A8r8g8b8Premultiplied => MemoryFormatBytes::B4,
            MemoryFormat::R8g8b8a8Premultiplied => MemoryFormatBytes::B4,
            MemoryFormat::B8g8r8a8 => MemoryFormatBytes::B4,
            MemoryFormat::A8r8g8b8 => MemoryFormatBytes::B4,
            MemoryFormat::R8g8b8a8 => MemoryFormatBytes::B4,
            MemoryFormat::A8b8g8r8 => MemoryFormatBytes::B4,
            MemoryFormat::R8g8b8 => MemoryFormatBytes::B3,
            MemoryFormat::B8g8r8 => MemoryFormatBytes::B3,
            MemoryFormat::R16g16b16 => MemoryFormatBytes::B6,
            MemoryFormat::R16g16b16a16Premultiplied => MemoryFormatBytes::B8,
            MemoryFormat::R16g16b16a16 => MemoryFormatBytes::B8,
            MemoryFormat::R16g16b16Float => MemoryFormatBytes::B6,
            MemoryFormat::R16g16b16a16Float => MemoryFormatBytes::B8,
            MemoryFormat::R32g32b32Float => MemoryFormatBytes::B12,
            MemoryFormat::R32g32b32a32FloatPremultiplied => MemoryFormatBytes::B16,
            MemoryFormat::R32g32b32a32Float => MemoryFormatBytes::B16,
            MemoryFormat::G8a8Premultiplied => MemoryFormatBytes::B2,
            MemoryFormat::G8a8 => MemoryFormatBytes::B2,
            MemoryFormat::G8 => MemoryFormatBytes::B1,
            MemoryFormat::G16a16Premultiplied => MemoryFormatBytes::B4,
            MemoryFormat::G16a16 => MemoryFormatBytes::B4,
            MemoryFormat::G16 => MemoryFormatBytes::B2,
        }
    }

    /// Number of channels.
    pub fn n_channels(self) -> (n: u8)
        ensures
            n == self.channels(),
    {
        match self {
            MemoryFormat::B8g8r8a8Premultiplied => 4,
            MemoryFormat::A8r8g8b8Premultiplied => 4,
            MemoryFormat::R8g8b8a8Premultiplied => 4,
            MemoryFormat::B8g8r8a8 => 4,
            MemoryFormat::A8r8g8b8 => 4,
            MemoryFormat::R8g8b8a8 => 4,
            MemoryFormat::A8b8g8r8 => 4,
            MemoryFormat::R8g8b8 => 3,
            MemoryFormat::B8g8r8 => 3,
            MemoryFormat::R16g16b16 => 3,
            MemoryFormat::R16g16b16a16Premultiplied => 4,
            MemoryFormat::R16g16b16a16 => 4,
            MemoryFormat::R16g16b16Float => 3,
            MemoryFormat::R16g16b16a16Float => 4,
            MemoryFormat::R32g32b32Float => 3,
            MemoryFormat::R32g32b32a32FloatPremultiplied => 4,
            MemoryFormat::R32g32b32a32Float => 4,
            MemoryFormat::G8a8Premultiplied => 2,
            MemoryFormat::G8a8 => 2,
            MemoryFormat::G8 => 1,
            MemoryFormat::G16a16Premultiplied => 2,
            MemoryFormat::G16a16 => 2,
            MemoryFormat::G16 => 1,
        }
    }

    /// Whether the format has an alpha channel.
    pub fn has_alpha(self) -> (alpha: bool)
        ensures
            alpha == self.alpha(),
    {
        match self {
            MemoryFormat::B8g8r8a8Premultiplied => true,
            MemoryFormat::A8r8g8b8Premultiplied => true,
            MemoryFormat::R8g8b8a8Premultiplied => true,
            MemoryFormat::B8g8r8a8 => true,
            MemoryFormat::A8r8g8b8 => true,
            MemoryFormat::R8g8b8a8 => true,
            MemoryFormat::A8b8g8r8 => true,
            MemoryFormat::R8g8b8 => false,
            MemoryFormat::B8g8r8 => false,
            MemoryFormat::R16g16b16 => false,
            MemoryFormat::R16g16b16a16Premultiplied => true,
            MemoryFormat::R16g16b16a16 => true,
            MemoryFormat::R16g16b16Float => false,
            MemoryFormat::R16g16b16a16Float => true,
            MemoryFormat::R32g32b32Float => false,
            MemoryFormat::R32g32b32a32FloatPremultiplied => true,
            MemoryFormat::R32g32b32a32Float => true,
            MemoryFormat::G8a8Premultiplied => true,
            MemoryFormat::G8a8 => true,
            MemoryFormat::G8 => false,
            MemoryFormat::G16a16Premultiplied => true,
            MemoryFormat::G16a16 => true,
            MemoryFormat::G16 => false,
        }
    }

    /// Whether the colour channels are premultiplied with alpha.
    pub fn is_premultiplied(self) -> (premultiplied: bool)
        ensures
            premultiplied == self.premultiplied(),
    {
        match self {
            MemoryFormat::B8g8r8a8Premultiplied => true,
            MemoryFormat::A8r8g8b8Premultiplied => true,
            MemoryFormat::R8g8b8a8Premultiplied => true,
            MemoryFormat::B8g8r8a8 => false,
            MemoryFormat::A8r8g8b8 => false,
            MemoryFormat::R8g8b8a8 => false,
            MemoryFormat::A8b8g8r8 => false,
            MemoryFormat::R8g8b8 => false,
            MemoryFormat::B8g8r8 => false,
            MemoryFormat::R16g16b16 => false,
            MemoryFormat::R16g16b16a16Premultiplied => true,
            MemoryFormat::R16g16b16a16 => false,
            MemoryFormat::R16g16b16Float => false,
            MemoryFormat::R16g16b16a16Float => false,
            MemoryFormat::R32g32b32Float => false,
            MemoryFormat::R32g32b32a32FloatPremultiplied => true,
            MemoryFormat::R32g32b32a32Float => false,
            MemoryFormat::G8a8Premultiplied => true,
            MemoryFormat::G8a8 => false,
            MemoryFormat::G8 => false,
            MemoryFormat::G16a16Premultiplied => true,
            MemoryFormat::G16a16 => false,
            MemoryFormat::G16 => false,
        }
    }
}

impl MemoryFormat {
    /// The number of the format in interfaces to other languages: the
    /// formats are numbered from 0 in the order in which they are listed.
    pub open spec fn number_of(self) -> int {
        match self {
            MemoryFormat::B8g8r8a8Premultiplied => 0,
            MemoryFormat::A8r8g8b8Premultiplied => 1,
            MemoryFormat::R8g8b8a8Premultiplied => 2,
            MemoryFormat::B8g8r8a8 => 3,
            MemoryFormat::A8r8g8b8 => 4,
            MemoryFormat::R8g8b8a8 => 5,
            MemoryFormat::A8b8g8r8 => 6,
            MemoryFormat::R8g8b8 => 7,
            MemoryFormat::B8g8r8 => 8,
            MemoryFormat::R16g16b16 => 9,
            MemoryFormat::R16g16b16a16Premultiplied => 10,
            MemoryFormat::R16g16b16a16 => 11,
            MemoryFormat::R16g16b16Float => 12,
            MemoryFormat::R16g16b16a16Float => 13,
            MemoryFormat::R32g32b32Float => 14,
            MemoryFormat::R32g32b32a32FloatPremultiplied => 15,
            MemoryFormat::R32g32b32a32Float => 16,
            MemoryFormat::G8a8Premultiplied => 17,
            MemoryFormat::G8a8 => 18,
            MemoryFormat::G8 => 19,
            MemoryFormat::G16a16Premultiplied => 20,
            MemoryFormat::G16a16 => 21,
            MemoryFormat::G16 => 22,
        }
    }

    pub fn number(self) -> (number: i32)
        ensures
            number == self.number_of(),
            0 <= number <= 22,
    {
        match self {
            MemoryFormat::B8g8r8a8Premultiplied => 0,
            MemoryFormat::A8r8g8b8Premultiplied => 1,
            MemoryFormat::R8g8b8a8Premultiplied => 2,
            MemoryFormat::B8g8r8a8 => 3,
            MemoryFormat::A8r8g8b8 => 4,
            MemoryFormat::R8g8b8a8 => 5,
            MemoryFormat::A8b8g8r8 => 6,
            MemoryFormat::R8g8b8 => 7,
            MemoryFormat::B8g8r8 => 8,
            MemoryFormat::R16g16b16 => 9,
            MemoryFormat::R16g16b16a16Premultiplied => 10,
            MemoryFormat::R16g16b16a16 => 11,
            MemoryFormat::R16g16b16Float => 12,
            MemoryFormat::R16g16b16a16Float => 13,
            MemoryFormat::R32g32b32Float => 14,
            MemoryFormat::R32g32b32a32FloatPremultiplied => 15,
            MemoryFormat::R32g32b32a32Float => 16,
            MemoryFormat::G8a8Premultiplied => 17,
            MemoryFormat::G8a8 => 18,
            MemoryFormat::G8 => 19,
            MemoryFormat::G16a16Premultiplied => 20,
            MemoryFormat::G16a16 => 21,
            MemoryFormat::G16 => 22,
        }
    }

    /// The format with this number, if there is one.
    pub fn from_number(number: i32) -> (format: Option<MemoryFormat>)
        ensures
            format is Some <==> 0 <= number <= 22,
            format is Some ==> format->0.number_of() == number,
    {
        match number {
            0 => Some(MemoryFormat::B8g8r8a8Premultiplied),
            1 => Some(MemoryFormat::A8r8g8b8Premultiplied),
            2 => Some(MemoryFormat::R8g8b8a8Premultiplied),
            3 => Some(MemoryFormat::B8g8r8a8),
            4 => Some(MemoryFormat::A8r8g8b8),
            5 => Some(MemoryFormat::R8g8b8a8),
            6 => Some(MemoryFormat::A8b8g8r8),
            7 => Some(MemoryFormat::R8g8b8),
            8 => Some(MemoryFormat::B8g8r8),
            9 => Some(MemoryFormat::R16g16b16),
            10 => Some(MemoryFormat::R16g16b16a16Premultiplied),
            11 => Some(MemoryFormat::R16g16b16a16),
            12 => Some(MemoryFormat::R16g16b16Float),
            13 => Some(MemoryFormat::R16g16b16a16Float),
            14 => Some(MemoryFormat::R32g32b32Float),
            15 => Some(MemoryFormat::R32g32b32a32FloatPremultiplied),
            16 => Some(MemoryFormat::R32g32b32a32Float),
            17 => Some(MemoryFormat::G8a8Premultiplied),
            18 => Some(MemoryFormat::G8a8),
            19 => Some(MemoryFormat::G8),
            20 => Some(MemoryFormat::G16a16Premultiplied),
            21 => Some(MemoryFormat::G16a16),
            22 => Some(MemoryFormat::G16),
            _ => None,
        }
    }
}

/// Every format has a number of its own, from which it is found again.
pub proof fn lemma_format_numbers(a: MemoryFormat, b: MemoryFormat)
    ensures
        0 <= a.number_of() <= 22,
        a.number_of() == b.number_of() ==> a == b,
{
}

impl MemoryFormatBytes {
    /// The number that the variant stands for.
    pub open spec fn value(self) -> nat {
        match self {
            MemoryFormatBytes::B1 => 1,
            MemoryFormatBytes::B2 => 2,
            MemoryFormatBytes::B3 => 3,
            MemoryFormatBytes::B4 => 4,
            MemoryFormatBytes::B6 => 6,
            MemoryFormatBytes::B8 => 8,
            MemoryFormatBytes::B12 => 12,
            MemoryFormatBytes::B16 => 16,
        }
    }

    pub fn u32(self) -> (n: u32)
        ensures
            n == self.value(),
    {
        match self {
            MemoryFormatBytes::B1 => 1,
            MemoryFormatBytes::B2 => 2,
            MemoryFormatBytes::B3 => 3,
            MemoryFormatBytes::B4 => 4,
            MemoryFormatBytes::B6 => 6,
            MemoryFormatBytes::B8 => 8,
            MemoryFormatBytes::B12 => 12,
            MemoryFormatBytes::B16 => 16,
        }
    }

    pub fn u64(self) -> (n: u64)
        ensures
            n == self.value(),
    {
        match self {
            MemoryFormatBytes::B1 => 1,
            MemoryFormatBytes::B2 => 2,
            MemoryFormatBytes::B3 => 3,
            MemoryFormatBytes::B4 => 4,
            MemoryFormatBytes::B6 => 6,
            MemoryFormatBytes::B8 => 8,
            MemoryFormatBytes::B12 => 12,
            MemoryFormatBytes::B16 => 16,
        }
    }

    pub fn usize(self) -> (n: usize)
        ensures
            n == self.value(),
    {
        match self {
            MemoryFormatBytes::B1 => 1,
            MemoryFormatBytes::B2 => 2,
            MemoryFormatBytes::B3 => 3,
            MemoryFormatBytes::B4 => 4,
            MemoryFormatBytes::B6 => 6,
            MemoryFormatBytes::B8 => 8,
            MemoryFormatBytes::B12 => 12,
            MemoryFormatBytes::B16 => 16,
        }
    }
}

/// What holds of every pixel format: the size of a pixel is one of eight
/// values, a pixel has one to four channels, and only a format with alpha
/// can be premultiplied.
pub proof fn lemma_format_ranges(format: MemoryFormat)
    ensures
        1 <= format.channels() <= 4,
        1 <= format.bytes_per_pixel() <= 16,
        format.bytes_per_pixel() == 1 || format.bytes_per_pixel() == 2
            || format.bytes_per_pixel() == 3 || format.bytes_per_pixel() == 4
            || format.bytes_per_pixel() == 6 || format.bytes_per_pixel() == 8
            || format.bytes_per_pixel() == 12 || format.bytes_per_pixel() == 16,
        format.premultiplied() ==> format.alpha(),
        format.alpha() <==> format.channels() == 2 || format.channels() == 4,
{
}

} // verus!
