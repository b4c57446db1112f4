use glycin::dbus::BinaryData;
use glycin::error::LoaderError;
use glycin::image_rs::{
    channel_details, ColorType, ExtendedColorType, Handler, ImageRsDecoder, ImageRsFormat,
};
use glycin::memory_format::MemoryFormat;
use glycin::operations::{MaybeOperation, Operation, Operations, OperationsIntermediate};
use glycin::orientation::Rotation;
use glycin::dbus::ImageInfo;

fn s(text: &str) -> String {
    text.to_string()
}

#[test]
fn colour_types_have_their_pixel_format() {
    let table = [
        (ColorType::L8, MemoryFormat::G8),
        (ColorType::La8, MemoryFormat::G8a8),
        (ColorType::Rgb8, MemoryFormat::R8g8b8),
        (ColorType::Rgba8, MemoryFormat::R8g8b8a8),
        (ColorType::L16, MemoryFormat::G16),
        (ColorType::La16, MemoryFormat::G16a16),
        (ColorType::Rgb16, MemoryFormat::R16g16b16),
        (ColorType::Rgba16, MemoryFormat::R16g16b16a16),
        (ColorType::Rgb32F, MemoryFormat::R32g32b32Float),
        (ColorType::Rgba32F, MemoryFormat::R32g32b32Float),
    ];
    for (color_type, format) in table {
        assert_eq!(MemoryFormat::from(color_type), format);
    }
}

#[test]
fn channel_details_of_file_layouts() {
    assert_eq!(channel_details(ExtendedColorType::A8), Some((true, false, 8)));
    assert_eq!(channel_details(ExtendedColorType::L1), Some((false, true, 1)));
    assert_eq!(channel_details(ExtendedColorType::La2), Some((true, true, 2)));
    assert_eq!(channel_details(ExtendedColorType::Rgb4), Some((false, false, 4)));
    assert_eq!(channel_details(ExtendedColorType::Rgba8), Some((true, false, 8)));
    assert_eq!(channel_details(ExtendedColorType::L16), Some((false, true, 16)));
    assert_eq!(channel_details(ExtendedColorType::Bgr8), Some((false, false, 8)));
    assert_eq!(channel_details(ExtendedColorType::Bgra8), Some((true, false, 8)));
    assert_eq!(channel_details(ExtendedColorType::Rgb32F), Some((false, false, 32)));
    assert_eq!(channel_details(ExtendedColorType::Rgba32F), Some((true, false, 32)));
    assert_eq!(channel_details(ExtendedColorType::Unknown(12)), Some((false, false, 12)));
    assert_eq!(channel_details(ExtendedColorType::Cmyk8), None);
}

#[test]
fn only_what_can_differ_is_reported() {
    let png = Handler::default()
        .format_name("PNG")
        .supports_two_alpha_modes(true)
        .supports_two_grayscale_modes(true)
        .default_bit_depth(8);
    let details = png.frame_details(None, ExtendedColorType::Rgba8);
    assert_eq!(details.bit_depth, None);
    assert_eq!(details.alpha_channel, Some(true));
    assert_eq!(details.grayscale, Some(false));
    assert_eq!(details.iccp, None);
    let details = png.frame_details(Some(BinaryData { memfd: 4 }), ExtendedColorType::L16);
    assert_eq!(details.bit_depth, Some(16));
    assert_eq!(details.alpha_channel, Some(false));
    assert_eq!(details.grayscale, Some(true));
    assert_eq!(details.iccp, Some(BinaryData { memfd: 4 }));
    let details = png.frame_details(None, ExtendedColorType::Cmyk8);
    assert_eq!((details.bit_depth, details.alpha_channel, details.grayscale), (None, None, None));
    let ico = Handler::default().format_name("ICO");
    let details = ico.frame_details(None, ExtendedColorType::Rgba8);
    assert_eq!((details.bit_depth, details.alpha_channel, details.grayscale), (Some(8), None, None));
    let info = png.info((640, 480));
    assert_eq!((info.width, info.height), (640, 480));
    assert_eq!(info.details.format_name, Some(s("PNG")));
    assert_eq!(Handler::default().info((1, 2)).details.format_name, None);
    let info = ImageInfo::from_decoder((3, 4));
    assert_eq!((info.width, info.height, info.details.format_name), (3, 4, None));
}

#[test]
fn every_media_type_has_its_decoder() {
    let table: [(&str, ImageRsDecoder, &str, Option<u8>, bool, bool); 17] = [
        ("image/bmp", ImageRsDecoder::Bmp, "BMP", Some(8), false, false),
        ("image/x-dds", ImageRsDecoder::Dds, "DDS", None, false, true),
        ("image/x-ff", ImageRsDecoder::Farbfeld, "Farbfeld", Some(16), false, false),
        ("image/gif", ImageRsDecoder::Gif, "GIF", Some(8), false, false),
        ("image/vnd.microsoft.icon", ImageRsDecoder::Ico, "ICO", None, false, false),
        ("image/jpeg", ImageRsDecoder::Jpeg, "JPEG", Some(8), false, true),
        ("image/x-exr", ImageRsDecoder::OpenExr, "OpenEXR", Some(32), false, true),
        ("image/png", ImageRsDecoder::Png, "PNG", Some(8), true, true),
        ("image/x-portable-bitmap", ImageRsDecoder::Pnm, "PBM", Some(1), false, false),
        ("image/x-portable-graymap", ImageRsDecoder::Pnm, "PGM", None, false, false),
        ("image/x-portable-pixmap", ImageRsDecoder::Pnm, "PPM", None, false, false),
        ("image/x-portable-anymap", ImageRsDecoder::Pnm, "PAM", None, false, false),
        ("image/x-qoi", ImageRsDecoder::Qoi, "QOI", Some(8), true, false),
        ("image/x-targa", ImageRsDecoder::Tga, "TGA", None, false, true),
        ("image/x-tga", ImageRsDecoder::Tga, "TGA", None, false, true),
        ("image/tiff", ImageRsDecoder::Tiff, "TIFF", None, true, true),
        ("image/webp", ImageRsDecoder::WebP, "WebP", Some(8), true, false),
    ];
    for (mime_type, decoder, name, depth, alpha, gray) in table {
        let format = ImageRsFormat::create(mime_type).unwrap();
        assert_eq!(format.decoder, decoder, "{mime_type}");
        assert_eq!(format.handler.format_name, Some(s(name)));
        assert_eq!(format.handler.default_bit_depth, depth, "{mime_type}");
        assert_eq!(format.handler.supports_two_alpha_modes, alpha, "{mime_type}");
        assert_eq!(format.handler.supports_two_grayscale_modes, gray, "{mime_type}");
    }
    for unknown in ["image/heif", "image/PNG", "", "image/png "] {
        assert!(matches!(
            ImageRsFormat::create(unknown),
            Err(LoaderError::UnsupportedImageFormat(m)) if m == unknown
        ));
    }
    let format = ImageRsFormat::new(ImageRsDecoder::Png)
        .format_name("x")
        .default_bit_depth(4)
        .supports_two_alpha_modes(true)
        .supports_two_grayscale_modes(true);
    assert_eq!(format.handler.default_bit_depth, Some(4));
    assert!(format.handler.supports_two_alpha_modes && format.handler.supports_two_grayscale_modes);
}

#[test]
fn animations_come_from_three_decoders() {
    assert!(ImageRsDecoder::Gif.is_animated(false));
    assert!(ImageRsDecoder::Png.is_animated(true));
    assert!(!ImageRsDecoder::Png.is_animated(false));
    assert!(ImageRsDecoder::WebP.is_animated(true));
    assert!(!ImageRsDecoder::WebP.is_animated(false));
    assert!(!ImageRsDecoder::Jpeg.is_animated(true));
    assert_eq!(ImageRsDecoder::Gif.into_frames(), Some(ImageRsDecoder::Gif));
    assert_eq!(ImageRsDecoder::Png.into_frames(), Some(ImageRsDecoder::Png));
    assert_eq!(ImageRsDecoder::WebP.into_frames(), Some(ImageRsDecoder::WebP));
    assert_eq!(ImageRsDecoder::Tiff.into_frames(), None);
}

#[test]
fn unknown_operations_do_not_spoil_the_list() {
    let read = OperationsIntermediate {
        operations: vec![
            MaybeOperation::Operation(Operation::Rotate(Rotation::_90)),
            MaybeOperation::Unknown(s("unknown variant `Blur`")),
            MaybeOperation::Operation(Operation::Rotate(Rotation::_180)),
            MaybeOperation::Unknown(s("unknown variant `Crop`")),
        ],
    };
    assert_eq!(read.operations[0].operation(), Some(&Operation::Rotate(Rotation::_90)));
    assert_eq!(read.operations[0].unknown(), None);
    assert_eq!(read.operations[1].operation(), None);
    assert_eq!(read.operations[1].unknown(), Some(s("unknown variant `Blur`")));
    let list = Operations::from(read);
    assert_eq!(list.operations(), [Operation::Rotate(Rotation::_90), Operation::Rotate(Rotation::_180)]);
    assert_eq!(list.unknown_operations(), [s("unknown variant `Blur`"), s("unknown variant `Crop`")]);
    let list = Operations::new(vec![Operation::Rotate(Rotation::_270)]);
    assert_eq!(list.operations(), [Operation::Rotate(Rotation::_270)]);
    assert!(list.unknown_operations().is_empty());
    let empty = Operations::from(OperationsIntermediate { operations: vec![] });
    assert!(empty.operations().is_empty());
    assert!(empty.unknown_operations().is_empty());
}
