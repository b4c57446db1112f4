use glycin::memory_format::{MemoryFormat, MemoryFormatBytes};
use glycin::save_conversion::{SafeConversion, SafeMath};

const ALL: [MemoryFormat; 23] = [
    MemoryFormat::B8g8r8a8Premultiplied,
    MemoryFormat::A8r8g8b8Premultiplied,
    MemoryFormat::R8g8b8a8Premultiplied,
    MemoryFormat::B8g8r8a8,
    MemoryFormat::A8r8g8b8,
    MemoryFormat::R8g8b8a8,
    MemoryFormat::A8b8g8r8,
    MemoryFormat::R8g8b8,
    MemoryFormat::B8g8r8,
    MemoryFormat::R16g16b16,
    MemoryFormat::R16g16b16a16Premultiplied,
    MemoryFormat::R16g16b16a16,
    MemoryFormat::R16g16b16Float,
    MemoryFormat::R16g16b16a16Float,
    MemoryFormat::R32g32b32Float,
    MemoryFormat::R32g32b32a32FloatPremultiplied,
    MemoryFormat::R32g32b32a32Float,
    MemoryFormat::G8a8Premultiplied,
    MemoryFormat::G8a8,
    MemoryFormat::G8,
    MemoryFormat::G16a16Premultiplied,
    MemoryFormat::G16a16,
    MemoryFormat::G16,
];

#[test]
fn bytes_per_pixel_of_every_format() {
    let expected: [u32; 23] = [4, 4, 4, 4, 4, 4, 4, 3, 3, 6, 8, 8, 6, 8, 12, 16, 16, 2, 2, 1, 4, 4, 2];
    for (format, bytes) in ALL.iter().zip(expected) {
        assert_eq!(format.n_bytes().u32(), bytes, "{format:?}");
        assert_eq!(format.n_bytes().u64(), u64::from(bytes));
        assert_eq!(format.n_bytes().usize(), bytes as usize);
    }
}

#[test]
fn channels_of_every_format() {
    let expected: [u8; 23] = [4, 4, 4, 4, 4, 4, 4, 3, 3, 3, 4, 4, 3, 4, 3, 4, 4, 2, 2, 1, 2, 2, 1];
    for (format, channels) in ALL.iter().zip(expected) {
        assert_eq!(format.n_channels(), channels, "{format:?}");
    }
}

#[test]
fn alpha_and_premultiplication() {
    for format in ALL {
        let name = format!("{format:?}");
        let has_alpha = name.contains('a') || name.starts_with('A');
        assert_eq!(format.has_alpha(), has_alpha && !matches!(format, MemoryFormat::R16g16b16Float | MemoryFormat::R32g32b32Float), "{name}");
        assert_eq!(format.is_premultiplied(), name.ends_with("Premultiplied"), "{name}");
        if format.is_premultiplied() {
            assert!(format.has_alpha());
        }
    }
    assert!(!MemoryFormat::R16g16b16Float.has_alpha());
    assert!(MemoryFormat::R16g16b16a16Float.has_alpha());
    assert!(!MemoryFormat::G8.has_alpha());
}

#[test]
fn pixel_sizes_are_the_eight_values() {
    let sizes = [
        MemoryFormatBytes::B1,
        MemoryFormatBytes::B2,
        MemoryFormatBytes::B3,
        MemoryFormatBytes::B4,
        MemoryFormatBytes::B6,
        MemoryFormatBytes::B8,
        MemoryFormatBytes::B12,
        MemoryFormatBytes::B16,
    ];
    let numbers: Vec<u32> = sizes.iter().map(|x| x.u32()).collect();
    assert_eq!(numbers, vec![1, 2, 3, 4, 6, 8, 12, 16]);
}

#[test]
fn conversions_keep_the_value_or_fail() {
    assert_eq!(7usize.try_u32(), Ok(7));
    assert_eq!(7u32.try_usize(), Ok(7));
    assert_eq!(u32::MAX.try_i32().is_err(), true);
    assert_eq!((i32::MAX as u32).try_i32(), Ok(i32::MAX));
    assert!((-1i32).try_usize().is_err());
    assert!((-1i32).try_u32().is_err());
    assert!((-1i32).try_u64().is_err());
    assert_eq!((-1i32).try_i64(), Ok(-1));
    assert_eq!(5i32.try_u64(), Ok(5));
    assert_eq!(usize::MAX.try_u64(), Ok(usize::MAX as u64));
    assert!(usize::MAX.try_i64().is_err());
    assert!(usize::MAX.try_u32().is_err());
    assert_eq!(u32::MAX.try_i64(), Ok(i64::from(u32::MAX)));
}

#[test]
fn safe_math_reports_overflow() {
    assert_eq!(6u32.smul(7), Ok(42));
    assert!(u32::MAX.smul(2).is_err());
    assert_eq!(65536u32.smul(65535), Ok(4294901760));
    assert!(65536u32.smul(65536).is_err());
    assert_eq!(u32::MAX.sadd(0), Ok(u32::MAX));
    assert!(u32::MAX.sadd(1).is_err());
    assert_eq!(17u32.srem(4), Ok(1));
    assert!(17u32.srem(0).is_err());
    assert_eq!(usize::MAX.smul(1), Ok(usize::MAX));
    assert!(usize::MAX.smul(2).is_err());
    assert!(usize::MAX.sadd(1).is_err());
    assert_eq!(10usize.srem(3), Ok(1));
}

#[test]
fn formats_are_numbered_in_their_order() {
    for (number, format) in ALL.iter().enumerate() {
        assert_eq!(format.number(), number as i32);
        assert_eq!(MemoryFormat::from_number(number as i32), Some(*format));
    }
    assert_eq!(MemoryFormat::from_number(-1), None);
    assert_eq!(MemoryFormat::from_number(23), None);
    assert_eq!(MemoryFormat::R8g8b8a8.number(), 5);
    assert_eq!(MemoryFormat::G16.number(), 22);
}
