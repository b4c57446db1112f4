use glycin::api;
use glycin::dbus::{BinaryData, Frame};
use glycin::error::{Error, FrameGeometry};
use glycin::memory_format::MemoryFormat;
use glycin::orientation::Orientation;
use glycin::pipeline::{prepare_frame, remove_stride_if_needed, validate_frame};

fn frame(width: u32, height: u32, stride: u32, format: MemoryFormat) -> Frame {
    let mut frame = Frame::new(1, 1, format, BinaryData { memfd: 4 }).unwrap();
    frame.width = width;
    frame.height = height;
    frame.stride = stride;
    frame
}

fn geometry(f: &Frame) -> FrameGeometry {
    FrameGeometry { width: f.width, height: f.height, stride: f.stride, memory_format: f.memory_format }
}

#[test]
fn a_small_opaque_image_passes_unchanged() {
    let pixels: Vec<u8> = (0u8..16).collect();
    let mut buf = pixels.clone();
    let mut f = frame(2, 2, 8, MemoryFormat::R8g8b8a8);
    let prepared = prepare_frame(&mut buf, &mut f, true, None, false).unwrap();
    assert!(prepared.replaced.is_none());
    assert!(prepared.truncate_to.is_none());
    assert_eq!(buf, pixels);
    let published = api::Frame::new(buf, f).unwrap();
    assert_eq!(published.width(), 2);
    assert_eq!(published.height(), 2);
    assert_eq!(published.stride(), 8);
    assert_eq!(published.memory_format(), MemoryFormat::R8g8b8a8);
    assert_eq!(published.buf_slice(), &pixels[..]);
    assert_eq!(published.buf_bytes(), pixels);
    assert_eq!(published.delay(), None);
    assert!(published.details().iccp.is_none());
}

#[test]
fn a_stride_one_byte_short_is_refused_before_anything_is_done() {
    let pixels: Vec<u8> = (0u8..64).collect();
    let mut buf = pixels.clone();
    let mut f = frame(4, 4, 4 * 4 - 1, MemoryFormat::R8g8b8a8);
    let expected = geometry(&f);
    let r = prepare_frame(&mut buf, &mut f, true, Some(Orientation::Rotation180), true);
    match r {
        Err(Error::StrideTooSmall(g)) => assert_eq!(g, expected),
        other => panic!("{other:?}"),
    }
    assert_eq!(buf, pixels);
    assert_eq!(geometry(&f), expected);
    assert!(matches!(api::Frame::new(buf, f), Err(Error::StrideTooSmall(_))));
}

#[test]
fn a_segment_one_byte_short_is_refused() {
    let f = frame(1024, 1024, 4096, MemoryFormat::R8g8b8a8);
    let size = 4 * 1024 * 1024 - 1;
    match validate_frame(&f, size) {
        Err(Error::TextureTooSmall { texture_size, frame }) => {
            assert_eq!(texture_size, 4194303);
            assert_eq!(frame, geometry(&f));
        }
        other => panic!("{other:?}"),
    }
    assert!(validate_frame(&f, size + 1).is_ok());
    let mut buf = vec![0u8; size];
    let mut f = f;
    assert!(matches!(
        prepare_frame(&mut buf, &mut f, false, None, false),
        Err(Error::TextureTooSmall { texture_size: 4194303, .. })
    ));
}

#[test]
fn the_checks_come_in_their_order() {
    // Too small a segment is seen before too small a stride.
    let f = frame(4, 4, 15, MemoryFormat::R8g8b8a8);
    assert!(matches!(validate_frame(&f, 59), Err(Error::TextureTooSmall { .. })));
    assert!(matches!(validate_frame(&f, 60), Err(Error::StrideTooSmall(_))));
    // Too small a stride is seen before a missing dimension.
    let f = frame(4, 0, 15, MemoryFormat::R8g8b8a8);
    assert!(matches!(validate_frame(&f, 0), Err(Error::StrideTooSmall(_))));
    let f = frame(4, 0, 16, MemoryFormat::R8g8b8a8);
    assert!(matches!(validate_frame(&f, 0), Err(Error::WidgthOrHeightZero(_))));
    let f = frame(0, 4, 0, MemoryFormat::R8g8b8a8);
    assert!(matches!(validate_frame(&f, 0), Err(Error::WidgthOrHeightZero(_))));
    let f = frame(1, 1, 4, MemoryFormat::R8g8b8a8);
    assert!(validate_frame(&f, 4).is_ok());
    assert!(matches!(validate_frame(&f, 3), Err(Error::TextureTooSmall { texture_size: 3, .. })));
}

#[test]
fn sizes_that_do_not_fit_are_reported() {
    // A row of more than u32::MAX bytes.
    let f = frame(u32::MAX, 1, u32::MAX, MemoryFormat::R8g8b8a8);
    assert!(matches!(validate_frame(&f, usize::MAX), Err(Error::ConversionTooLargerError)));
    let f = frame(1 << 30, 1, u32::MAX, MemoryFormat::R8g8b8a8);
    assert!(matches!(validate_frame(&f, usize::MAX), Err(Error::ConversionTooLargerError)));
    let f = frame((1 << 30) - 1, 1, u32::MAX, MemoryFormat::R8g8b8a8);
    assert!(validate_frame(&f, usize::MAX).is_ok());
    assert!(Frame::new(1 << 30, 1, MemoryFormat::R8g8b8a8, BinaryData { memfd: 0 }).is_err());
    assert!(Frame::new((1 << 30) - 1, 1, MemoryFormat::R8g8b8a8, BinaryData { memfd: 0 }).is_ok());
    let f = frame(7, 3, 40, MemoryFormat::R8g8b8);
    assert_eq!(f.n_bytes(), Ok(120));
}

#[test]
fn rows_are_moved_together_where_the_stride_is_no_whole_pixel() {
    let (w, h, ps, stride) = (3usize, 4usize, 3usize, 11usize);
    let mut buf = vec![0u8; stride * h + 2];
    for (k, b) in buf.iter_mut().enumerate() {
        *b = k as u8;
    }
    let original = buf.clone();
    let mut f = frame(3, 4, 11, MemoryFormat::R8g8b8);
    let cut = remove_stride_if_needed(&mut buf, &mut f);
    assert_eq!(cut, Some(w * ps * h));
    assert_eq!(f.stride as usize, w * ps);
    assert_eq!((f.width, f.height), (3, 4));
    for y in 0..h {
        assert_eq!(buf[y * w * ps..(y + 1) * w * ps], original[y * stride..y * stride + w * ps]);
    }
    assert_eq!(buf[w * ps * h..], original[w * ps * h..]);
}

#[test]
fn an_aligned_stride_stays() {
    let mut buf: Vec<u8> = (0u8..48).collect();
    let original = buf.clone();
    let mut f = frame(3, 4, 12, MemoryFormat::R8g8b8);
    assert_eq!(remove_stride_if_needed(&mut buf, &mut f), None);
    assert_eq!(buf, original);
    assert_eq!(f.stride, 12);
}

#[test]
fn padding_goes_only_where_a_colour_transform_follows() {
    let mut buf: Vec<u8> = (0u8..44).collect();
    let original = buf.clone();
    let mut f = frame(3, 4, 11, MemoryFormat::R8g8b8);
    let prepared = prepare_frame(&mut buf, &mut f, true, None, false).unwrap();
    assert_eq!(prepared.truncate_to, None);
    assert_eq!(buf, original);
    let prepared = prepare_frame(&mut buf, &mut f, true, None, true).unwrap();
    assert_eq!(prepared.truncate_to, Some(36));
    assert_eq!(f.stride, 9);
    buf.truncate(36);
    let published = api::Frame::new(buf, f).unwrap();
    assert_eq!(published.buf_slice()[9..18], original[11..20]);
}

#[test]
fn the_orientation_is_applied_only_on_request() {
    let original: Vec<u8> = vec![1, 2, 3, 4, 5, 6];
    let mut buf = original.clone();
    let mut f = frame(3, 2, 3, MemoryFormat::G8);
    let prepared = prepare_frame(&mut buf, &mut f, false, Some(Orientation::Rotation270), false);
    assert!(prepared.unwrap().replaced.is_none());
    assert_eq!(buf, original);
    let prepared = prepare_frame(&mut buf, &mut f, true, Some(Orientation::Rotation270), true);
    let prepared = prepared.unwrap();
    assert_eq!(prepared.replaced, Some(vec![4, 1, 5, 2, 6, 3]));
    assert_eq!(prepared.truncate_to, None);
    assert_eq!((f.width, f.height, f.stride), (2, 3, 2));
    let published = api::Frame::new(prepared.replaced.unwrap(), f).unwrap();
    assert!(published.buf_slice().len() as u32 >= published.stride() * published.height());
    let copy = published.clone();
    assert_eq!(copy.buf_slice(), published.buf_slice());
    assert_eq!(copy.width(), 2);
}
