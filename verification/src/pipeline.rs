//! What the host does to a frame between receiving it from the loader and
//! handing it to the application: the checks, the orientation, and the
//! removal of row padding.

use vstd::prelude::*;
use crate::dbus::Frame;
use crate::error::{Error, FrameGeometry};
use crate::icc::{apply_transformation, icc_applied, icc_applies};
use crate::orientation::{
    apply_exif_orientation,
    frame_fits,
    is_oriented,
    is_quarter_turn,
    is_turned_frame,
    lemma_offset_order,
    row_byte,
    Orientation,
};
use crate::save_conversion::{SafeConversion, SafeMath};

verus! {

impl Frame {
    /// The numbers of the frame that an error reports.
    pub open spec fn geometry_of(self) -> FrameGeometry {
        FrameGeometry {
            width: self.width,
            height: self.height,
            stride: self.stride,
            memory_format: self.memory_format,
        }
    }

    pub fn geometry(&self) -> (geometry: FrameGeometry)
        ensures
            geometry == self.geometry_of(),
    {
        FrameGeometry {
            width: self.width,
            height: self.height,
            stride: self.stride,
            memory_format: self.memory_format,
        }
    }
}

/// What the check of a frame against a pixel segment of `texture_size` bytes
/// gives. The checks are made in this order: the segment holds stride times
/// height bytes, a row holds width pixels, and neither width nor height is
/// zero. A size that does not fit its integer type is an error of its own.
pub open spec fn frame_check(frame: Frame, texture_size: usize) -> Result<(), Error> {
    if frame.byte_size() > usize::MAX {
        Err(Error::ConversionTooLargerError)
    } else if texture_size < frame.byte_size() {
        Err(Error::TextureTooSmall { texture_size, frame: frame.geometry_of() })
    } else if frame.row_bytes() > u32::MAX {
        Err(Error::ConversionTooLargerError)
    } else if frame.stride < frame.row_bytes() {
        Err(Error::StrideTooSmall(frame.geometry_of()))
    } else if frame.width < 1 || frame.height < 1 {
        Err(Error::WidgthOrHeightZero(frame.geometry_of()))
    } else {
        Ok(())
    }
}

/// A frame that passes the check fits its segment, and has pixels.
pub proof fn lemma_checked_frame_fits(frame: Frame, texture_size: usize)
    requires
        frame_check(frame, texture_size) is Ok,
    ensures
        frame_fits(frame, texture_size as int),
        frame.stride >= frame.width * frame.memory_format.bytes_per_pixel(),
        texture_size >= frame.stride * frame.height,
        frame.width >= 1,
        frame.height >= 1,
{
    assert(frame.height * frame.stride == frame.stride * frame.height) by (nonlinear_arith);
}

/// Checks a frame that a loader returned against the size of the pixel
/// segment that came with it.
pub fn validate_frame(frame: &Frame, texture_size: usize) -> (r: Result<(), Error>)
    ensures
        r == frame_check(*frame, texture_size),
{
    let n_bytes = match frame.n_bytes() {
        Ok(n_bytes) => n_bytes,
        Err(_) => {
            return Err(Error::ConversionTooLargerError);
        },
    };
    if texture_size < n_bytes {
        return Err(Error::TextureTooSmall { texture_size, frame: frame.geometry() });
    }
    let row = match frame.width.smul(frame.memory_format.n_bytes().u32()) {
        Ok(row) => row,
        Err(_) => {
            return Err(Error::ConversionTooLargerError);
        },
    };
    if frame.stride < row {
        return Err(Error::StrideTooSmall(frame.geometry()));
    }
    if frame.width < 1 || frame.height < 1 {
        return Err(Error::WidgthOrHeightZero(frame.geometry()));
    }
    Ok(())
}

/// Whether the rows have to be moved together before a colour transform:
/// the transform reads the buffer as one run of pixels, so the stride has
/// to be a whole number of pixels.
pub open spec fn stride_misaligned(frame: Frame) -> bool {
    frame.stride as int % frame.memory_format.bytes_per_pixel() as int != 0
}

/// `out` holds the rows of `inp` one after the other without padding: byte
/// `c` of row `y` has moved from `y * stride + c` to `y * row + c`. What
/// follows the packed rows is as in `inp`.
pub open spec fn is_packed(out: Seq<u8>, inp: Seq<u8>, row: int, h: int, stride: int) -> bool {
    &&& out.len() == inp.len()
    &&& forall|y: int, c: int|
        0 <= y < h && 0 <= c < row ==> #[trigger] row_byte(out, row, y, c) == row_byte(
            inp,
            stride,
            y,
            c,
        )
    &&& forall|k: int| h * row <= k < inp.len() ==> #[trigger] out[k] == inp[k]
}

/// Removes the padding between rows where the stride is not a whole number
/// of pixels, and leaves frame and buffer alone where it is.
///
/// After the rows were moved, `frame.stride` is the length of a row, and the
/// result is the number of bytes that the rows now take: the segment is to
/// be cut to that length.
pub fn remove_stride_if_needed(img_buf: &mut [u8], frame: &mut Frame) -> (r: Option<usize>)
    requires
        frame_fits(*old(frame), old(img_buf)@.len() as int),
    ensures
        r is Some <==> stride_misaligned(*old(frame)),
        r is None ==> final(img_buf)@ == old(img_buf)@ && *final(frame) == *old(frame),
        r is Some ==> {
            &&& r->0 == old(frame).row_bytes() * old(frame).height
            &&& r->0 <= old(img_buf)@.len()
            &&& final(frame).stride == old(frame).row_bytes()
            &&& final(frame).width == old(frame).width
            &&& final(frame).height == old(frame).height
            &&& final(frame).memory_format == old(frame).memory_format
            &&& final(frame).texture == old(frame).texture
            &&& final(frame).delay == old(frame).delay
            &&& final(frame).details == old(frame).details
            &&& is_packed(
                final(img_buf)@,
                old(img_buf)@,
                old(frame).row_bytes(),
                old(frame).height as int,
                old(frame).stride as int,
            )
        },
{
    let pixel_size = frame.memory_format.n_bytes().u32();
    if frame.stride % pixel_size == 0 {
        return None;
    }
    let len = img_buf.len();
    let stride = frame.stride as usize;
    let height = frame.height as usize;
    proof {
        assert(frame.width * pixel_size <= frame.stride);
    }
    let row_u32: u32 = frame.width * pixel_size;
    let row = row_u32 as usize;
    proof {
        assert(height * row <= height * stride) by (nonlinear_arith)
            requires
                row <= stride,
                0 <= height,
        ;
    }

    let mut y: usize = 1;
    if height == 0 {
        y = 0;
    }
    while y < height
        invariant
            len == img_buf@.len(),
            img_buf@.len() == old(img_buf)@.len(),
            row <= stride,
            height * stride <= len,
            height * row <= height * stride,
            height == 0 ==> y == 0,
            height > 0 ==> 1 <= y <= height,
            forall|yy: int, c: int|
                0 <= yy < y && 0 <= c < row ==> #[trigger] row_byte(img_buf@, row as int, yy, c)
                    == row_byte(old(img_buf)@, stride as int, yy, c),
            forall|k: int| y * row <= k < len ==> #[trigger] img_buf@[k] == old(img_buf)@[k],
        decreases height - y,
    {
        proof {
            lemma_offset_order(y as int, height as int, stride as int);
            lemma_offset_order(y as int, height as int, row as int);
            assert(y * row <= y * stride) by (nonlinear_arith)
                requires
                    row <= stride,
                    0 <= y,
            ;
        }
        let from = y * stride;
        let to = y * row;
        let ghost before = img_buf@;
        let mut c: usize = 0;
        while c < row
            invariant
                len == img_buf@.len(),
                img_buf@.len() == before.len(),
                0 <= c <= row,
                to <= from,
                from + row <= len,
                forall|k: int| 0 <= k < to ==> #[trigger] img_buf@[k] == before[k],
                forall|cc: int| 0 <= cc < c ==> #[trigger] img_buf@[to + cc] == before[from + cc],
                forall|k: int| to + c <= k < len ==> #[trigger] img_buf@[k] == before[k],
            decreases row - c,
        {
            let byte = img_buf[from + c];
            img_buf[to + c] = byte;
            c += 1;
        }
        proof {
            assert((y + 1) * row == y * row + row) by (nonlinear_arith);
            assert forall|yy: int, c: int| 0 <= yy < y + 1 && 0 <= c < row implies #[trigger] row_byte(
                img_buf@,
                row as int,
                yy,
                c,
            ) == row_byte(old(img_buf)@, stride as int, yy, c) by {
                if yy < y {
                    lemma_offset_order(yy, y as int, row as int);
                    assert(img_buf@[yy * row + c] == before[yy * row + c]);
                    assert(row_byte(before, row as int, yy, c) == row_byte(
                        old(img_buf)@,
                        stride as int,
                        yy,
                        c,
                    ));
                } else {
                    assert(img_buf@[to + c] == before[from + c]);
                    assert(before[from + c] == old(img_buf)@[from + c]);
                }
            }
            assert forall|k: int| (y + 1) * row <= k < len implies #[trigger] img_buf@[k] == old(
                img_buf,
            )@[k] by {
                assert(img_buf@[k] == before[k]);
            }
        }
        y += 1;
    }
    proof {
        assert(row * height == height * row) by (nonlinear_arith);
    }
    frame.stride = row_u32;
    Some(height * row)
}

/// What the host has done to a frame before the colour transform.
#[derive(Debug)]
pub struct Prepared {
    /// The pixels after a quarter turn, which take the place of the pixels
    /// in the segment.
    pub replaced: Option<Vec<u8>>,
    /// The length to which the segment is to be cut, where its rows were
    /// moved together.
    pub truncate_to: Option<usize>,
}

/// The orientation that is applied: the one of the image where the
/// application wants transformations and the image has one, else none.
pub open spec fn effective_orientation(apply_transformations: bool, orientation: Option<Orientation>) -> Orientation {
    if apply_transformations && orientation is Some {
        orientation->0
    } else {
        Orientation::Id
    }
}

/// Whether the frame cannot be turned: the stride after the quarter turn
/// does not fit `u32`.
pub open spec fn turn_too_large(frame: Frame, orientation: Orientation) -> bool {
    is_quarter_turn(orientation.rotation()) && frame.height * frame.memory_format.bytes_per_pixel()
        > u32::MAX
}

/// The first steps of the host on a frame from the loader, in their order:
/// the frame is checked against the length of the pixel segment; the image
/// is mirrored and rotated as its orientation says, where the application
/// wants that; and where a colour transform will follow, the rows are moved
/// together if the stride is not a whole number of pixels.
///
/// `img_buf` is the pixel segment, `orientation` what the EXIF data of the
/// image says, if anything, and `has_icc_profile` whether the frame came
/// with a colour profile that can be read. On an error nothing has changed.
pub fn prepare_frame(
    img_buf: &mut [u8],
    frame: &mut Frame,
    apply_transformations: bool,
    orientation: Option<Orientation>,
    has_icc_profile: bool,
) -> (r: Result<Prepared, Error>)
    ensures
        ({
            let len = old(img_buf)@.len();
            let applied = effective_orientation(apply_transformations, orientation);
            let w = old(frame).width as int;
            let h = old(frame).height as int;
            let stride = old(frame).stride as int;
            let ps = old(frame).memory_format.bytes_per_pixel() as int;
            let packs = has_icc_profile && !is_quarter_turn(applied.rotation()) && stride_misaligned(
                *old(frame),
            );
            &&& frame_check(*old(frame), len as usize) is Err ==> r == Err::<Prepared, Error>(
                frame_check(*old(frame), len as usize)->Err_0,
            )
            &&& frame_check(*old(frame), len as usize) is Ok && turn_too_large(*old(frame), applied)
                ==> r == Err::<Prepared, Error>(Error::ConversionTooLargerError)
            &&& r is Err ==> final(img_buf)@ == old(img_buf)@ && *final(frame) == *old(frame)
            &&& r is Ok <==> frame_check(*old(frame), len as usize) is Ok && !turn_too_large(
                *old(frame),
                applied,
            )
            &&& r is Ok ==> {
                let prepared = r->Ok_0;
                &&& prepared.replaced is Some <==> is_quarter_turn(applied.rotation())
                &&& prepared.truncate_to is Some <==> packs
                &&& prepared.replaced is Some ==> is_turned_frame(*final(frame), *old(frame))
                    && is_oriented(prepared.replaced->0@, old(img_buf)@, applied, w, h, stride, ps)
                &&& prepared.replaced is None && !packs ==> *final(frame) == *old(frame)
                    && is_oriented(final(img_buf)@, old(img_buf)@, applied, w, h, stride, ps)
                &&& packs ==> {
                    &&& prepared.truncate_to->0 == old(frame).row_bytes() * h
                    &&& prepared.truncate_to->0 <= len
                    &&& final(frame).stride == old(frame).row_bytes()
                    &&& final(frame).width == old(frame).width
                    &&& final(frame).height == old(frame).height
                    &&& final(frame).memory_format == old(frame).memory_format
                    &&& final(frame).texture == old(frame).texture
                    &&& final(frame).delay == old(frame).delay
                    &&& final(frame).details == old(frame).details
                    &&& exists|oriented: Seq<u8>|
                        is_oriented(oriented, old(img_buf)@, applied, w, h, stride, ps) && is_packed(
                            final(img_buf)@,
                            oriented,
                            old(frame).row_bytes(),
                            h,
                            stride,
                        )
                }
                &&& frame_check(*final(frame), published_len(prepared, len) as usize) is Ok
            }
        }),
{
    match validate_frame(frame, img_buf.len()) {
        Ok(()) => {},
        Err(err) => {
            return Err(err);
        },
    }
    proof {
        lemma_checked_frame_fits(*frame, img_buf@.len() as usize);
    }
    let applied = if apply_transformations {
        orientation
    } else {
        None
    };
    let replaced = match apply_exif_orientation(img_buf, frame, applied) {
        Ok(replaced) => replaced,
        Err(_) => {
            return Err(Error::ConversionTooLargerError);
        },
    };
    let ghost oriented = img_buf@;
    let ghost turned = *frame;
    let mut truncate_to: Option<usize> = None;
    if let Some(pixels) = &replaced {
        let turned_len = pixels.len();
        proof {
            lemma_turned_frame_checks(*old(frame), turned, turned_len as nat);
        }
    }
    if has_icc_profile && replaced.is_none() {
        truncate_to = remove_stride_if_needed(img_buf, frame);
        proof {
            if truncate_to is Some {
                lemma_packed_frame_checks(*old(frame), *frame, truncate_to->0 as nat);
            }
        }
    }
    Ok(Prepared { replaced, truncate_to })
}

/// The length of the buffer that holds the pixels after the first steps.
pub open spec fn published_len(prepared: Prepared, segment_len: nat) -> nat {
    if prepared.replaced is Some {
        prepared.replaced->0@.len()
    } else if prepared.truncate_to is Some {
        prepared.truncate_to->0 as nat
    } else {
        segment_len
    }
}

/// A checked frame passes the check again after a quarter turn into a
/// buffer without padding.
pub proof fn lemma_turned_frame_checks(before: Frame, after: Frame, len: nat)
    requires
        before.width >= 1,
        before.height >= 1,
        is_turned_frame(after, before),
        len == before.width * before.height * before.memory_format.bytes_per_pixel(),
        len <= usize::MAX,
    ensures
        frame_check(after, len as usize) is Ok,
{
    let ps = before.memory_format.bytes_per_pixel() as int;
    let w = before.width as int;
    let h = before.height as int;
    assert(after.stride * after.height == w * h * ps) by (nonlinear_arith)
        requires
            after.stride == h * ps,
            after.height == w,
    ;
    assert(after.width * ps == after.stride) by (nonlinear_arith)
        requires
            after.stride == h * ps,
            after.width == h,
    ;
}

/// A checked frame passes the check again after its rows were moved
/// together and the segment was cut.
pub proof fn lemma_packed_frame_checks(before: Frame, after: Frame, len: nat)
    requires
        before.width >= 1,
        before.height >= 1,
        before.row_bytes() <= before.stride,
        after.stride == before.row_bytes(),
        after.width == before.width,
        after.height == before.height,
        after.memory_format == before.memory_format,
        len == before.row_bytes() * before.height,
        len <= usize::MAX,
    ensures
        frame_check(after, len as usize) is Ok,
{
    assert(after.stride * after.height == before.row_bytes() * before.height) by (nonlinear_arith)
        requires
            after.stride == before.row_bytes(),
            after.height == before.height,
    ;
}

/// The colour transform of the prepared pixels, from the colour profile of
/// the frame to sRGB: of the pixels that took the place of the segment
/// after a quarter turn, else of the segment up to the length that it is to
/// be cut to, else of the whole segment.
///
/// A failure does not fail the frame: the pixels are then as before, and the
/// error is returned to be noted.
pub fn correct_colours(
    img_buf: &mut [u8],
    prepared: &mut Prepared,
    frame: &Frame,
    icc_profile: &[u8],
) -> (failure: Option<Error>)
    ensures
        final(prepared).truncate_to == old(prepared).truncate_to,
        final(prepared).replaced is Some <==> old(prepared).replaced is Some,
        old(prepared).replaced is Some ==> {
            &&& final(img_buf)@ == old(img_buf)@
            &&& final(prepared).replaced->0@ == icc_applied(
                icc_profile@,
                frame.memory_format,
                old(prepared).replaced->0@,
            )
            &&& failure is None <==> icc_applies(
                icc_profile@,
                frame.memory_format,
                old(prepared).replaced->0@,
            )
        },
        old(prepared).replaced is None ==> {
            let cut = match old(prepared).truncate_to {
                Some(cut) if cut <= old(img_buf)@.len() => cut as int,
                _ => old(img_buf)@.len() as int,
            };
            &&& final(img_buf)@ == icc_applied(
                icc_profile@,
                frame.memory_format,
                old(img_buf)@.subrange(0, cut),
            ) + old(img_buf)@.subrange(cut, old(img_buf)@.len() as int)
            &&& failure is None <==> icc_applies(
                icc_profile@,
                frame.memory_format,
                old(img_buf)@.subrange(0, cut),
            )
        },
        failure is Some ==> failure->0 is IccProfile,
{
    let result = match &mut prepared.replaced {
        Some(pixels) => apply_transformation(icc_profile, frame.memory_format, pixels.as_mut_slice()),
        None => {
            let cut = match prepared.truncate_to {
                Some(cut) if cut <= img_buf.len() => cut,
                _ => img_buf.len(),
            };
            let (head, _tail) = img_buf.split_at_mut(cut);
            apply_transformation(icc_profile, frame.memory_format, head)
        },
    };
    match result {
        Ok(()) => None,
        Err(err) => Some(err),
    }
}

} // verus!
