use glycin::dbus::{BinaryData, FrameRequest};
use glycin::loaders::{
    heif_chroma, heif_exif_payload, heif_format_name, heif_frame_details, heif_memory_format,
    is_icc_profile_type, jxl_exif_payload, jxl_frame_details, scale_hdr_sample, svg_instruction,
    svg_memory_format, svg_size_supported, Instruction, RgbChroma, RSVG_MAX_SIZE,
};
use glycin::memory_format::MemoryFormat;

#[test]
fn heif_images_get_the_layout_that_holds_them() {
    assert_eq!(heif_format_name("image/heif"), "HEIC");
    assert_eq!(heif_format_name("image/avif"), "AVIF");
    assert_eq!(heif_format_name("image/heic"), "HEIF (Unknown)");
    assert_eq!(heif_chroma(8, false), RgbChroma::Rgb);
    assert_eq!(heif_chroma(8, true), RgbChroma::Rgba);
    assert_eq!(heif_chroma(9, false), RgbChroma::HdrRgb);
    assert_eq!(heif_chroma(12, true), RgbChroma::HdrRgba);
    assert_eq!(heif_memory_format(RgbChroma::Rgb, false, false), MemoryFormat::R8g8b8);
    assert_eq!(heif_memory_format(RgbChroma::Rgb, false, true), MemoryFormat::R8g8b8);
    assert_eq!(heif_memory_format(RgbChroma::Rgba, true, false), MemoryFormat::R8g8b8a8);
    assert_eq!(heif_memory_format(RgbChroma::Rgba, true, true), MemoryFormat::R8g8b8a8Premultiplied);
    assert_eq!(heif_memory_format(RgbChroma::HdrRgb, false, false), MemoryFormat::R16g16b16);
    assert_eq!(heif_memory_format(RgbChroma::HdrRgba, true, false), MemoryFormat::R16g16b16a16);
    assert_eq!(
        heif_memory_format(RgbChroma::HdrRgba, true, true),
        MemoryFormat::R16g16b16a16Premultiplied
    );
    assert!(is_icc_profile_type(u32::from_be_bytes(*b"rICC")));
    assert!(is_icc_profile_type(u32::from_be_bytes(*b"prof")));
    assert!(!is_icc_profile_type(u32::from_be_bytes(*b"nclx")));
    assert!(!is_icc_profile_type(0));
}

#[test]
fn samples_are_scaled_to_sixteen_bits() {
    assert_eq!(scale_hdr_sample(0x3ff, 10), 0xffc0);
    assert_eq!(scale_hdr_sample(1, 10), 64);
    assert_eq!(scale_hdr_sample(0xfff, 12), 0xfff0);
    assert_eq!(scale_hdr_sample(0xabcd, 16), 0xabcd);
    assert_eq!(scale_hdr_sample(0xffff, 10), 0xffffu16 << 6);
    for bits in 1u8..=16 {
        for sample in [0u16, 1, 2, 3, 0x155, 0x3ff, 0x8000, 0xffff] {
            assert_eq!(scale_hdr_sample(sample, bits), sample << (16 - bits));
        }
    }
}

#[test]
fn heif_details_report_depth_and_alpha() {
    let details = heif_frame_details(Some(BinaryData { memfd: 5 }), 10, true);
    assert_eq!(details.iccp, Some(BinaryData { memfd: 5 }));
    assert_eq!(details.bit_depth, Some(10));
    assert_eq!(details.alpha_channel, Some(true));
    assert_eq!(details.grayscale, None);
    let details = heif_frame_details(None, 8, false);
    assert_eq!((details.iccp, details.bit_depth, details.alpha_channel), (None, None, Some(false)));
}

#[test]
fn exif_data_follows_the_offset() {
    assert_eq!(heif_exif_payload(vec![0, 0, 0, 0, 0x4d, 0x4d, 0, 42]), Some(vec![0x4d, 0x4d, 0, 42]));
    assert_eq!(heif_exif_payload(vec![0, 0, 0, 2, 9, 9, 0x49, 0x49]), Some(vec![0x49, 0x49]));
    assert_eq!(heif_exif_payload(vec![0, 0, 0, 2, 9, 9]), None);
    assert_eq!(heif_exif_payload(vec![0, 0, 0, 3, 9, 9]), None);
    assert_eq!(heif_exif_payload(vec![0, 0, 0, 0]), None);
    assert_eq!(heif_exif_payload(vec![0, 0, 0]), None);
    assert_eq!(heif_exif_payload(vec![]), None);
    assert_eq!(heif_exif_payload(vec![255, 255, 255, 255, 1, 2, 3]), None);
    assert_eq!(heif_exif_payload(vec![0, 0, 1, 0, 1, 2, 3]), None);
    let mut block = vec![0, 0, 1, 0];
    block.extend(vec![7u8; 256]);
    block.push(8);
    assert_eq!(heif_exif_payload(block), Some(vec![8]));
    assert_eq!(jxl_exif_payload(vec![0, 0, 0, 0, 1, 2]), Some(vec![1, 2]));
    assert_eq!(jxl_exif_payload(vec![0, 0, 0, 6, 1]), Some(vec![1]));
    assert_eq!(jxl_exif_payload(vec![0, 0, 0, 0]), None);
    assert_eq!(jxl_exif_payload(vec![]), None);
}

#[test]
fn jxl_details_report_what_is_unusual() {
    let details = jxl_frame_details(None, false, false, 8);
    assert_eq!((details.bit_depth, details.alpha_channel, details.grayscale), (None, None, None));
    let details = jxl_frame_details(Some(BinaryData { memfd: 1 }), true, true, 16);
    assert_eq!(details.iccp, Some(BinaryData { memfd: 1 }));
    assert_eq!(
        (details.bit_depth, details.alpha_channel, details.grayscale),
        (Some(16), Some(true), Some(true))
    );
}

#[test]
fn an_svg_is_rendered_in_the_size_and_part_that_is_asked_for() {
    let mut request = FrameRequest::default();
    assert_eq!(
        svg_instruction(300, 200, &request),
        Instruction { total_size: (300, 200), area: (0, 0, 300, 200) }
    );
    request.scale = Some((600, 400));
    assert_eq!(
        svg_instruction(300, 200, &request),
        Instruction { total_size: (600, 400), area: (0, 0, 600, 400) }
    );
    request.clip = Some((10, 20, 30, 40));
    assert_eq!(
        svg_instruction(300, 200, &request),
        Instruction { total_size: (600, 400), area: (10, 20, 30, 40) }
    );
    request.scale = None;
    assert_eq!(
        svg_instruction(300, 200, &request),
        Instruction { total_size: (300, 200), area: (10, 20, 30, 40) }
    );
    assert_eq!(RSVG_MAX_SIZE, 32767);
    assert!(svg_size_supported((32767, 32767)));
    assert!(!svg_size_supported((32768, 1)));
    assert!(!svg_size_supported((1, 32768)));
    assert_eq!(svg_memory_format(true), MemoryFormat::B8g8r8a8);
    assert_eq!(svg_memory_format(false), MemoryFormat::A8r8g8b8);
}
