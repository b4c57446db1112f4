//! Image orientation: the mirroring and rotation that an EXIF orientation
//! asks for, applied to pixel bytes.

use vstd::prelude::*;
use crate::dbus::Frame;
use crate::error::DimensionTooLargerError;

verus! {

/// Rotation counter-clockwise in steps of a quarter turn.
#[derive(Debug, Clone, Copy, PartialEq, Eq, Structural)]
pub enum Rotation {
    _0,
    _90,
    _180,
    _270,
}

/// What has to be done to an image to show it upright: an optional mirroring
/// of each row, followed by a rotation.
#[derive(Debug, Clone, Copy, PartialEq, Eq, Structural)]
pub enum Orientation {
    Id,
    Rotation90,
    Rotation180,
    Rotation270,
    Mirrored,
    MirroredRotation90,
    MirroredRotation180,
    MirroredRotation270,
}

impl Orientation {
    /// The orientation that an EXIF orientation value stands for.
    pub open spec fn of_exif(value: int) -> Option<Orientation> {
        if value == 1 {
            Some(Orientation::Id)
        } else if value == 2 {
            Some(Orientation::Mirrored)
        } else if value == 3 {
            Some(Orientation::Rotation180)
        } else if value == 4 {
            Some(Orientation::MirroredRotation180)
        } else if value == 5 {
            Some(Orientation::MirroredRotation90)
        } else if value == 6 {
            Some(Orientation::Rotation270)
        } else if value == 7 {
            Some(Orientation::MirroredRotation270)
        } else if value == 8 {
            Some(Orientation::Rotation90)
        } else {
            None
        }
    }

    /// Whether the rows are mirrored before the rotation.
    pub open spec fn mirrored(self) -> bool {
        self == Orientation::Mirrored || self == Orientation::MirroredRotation90 || self
            == Orientation::MirroredRotation180 || self == Orientation::MirroredRotation270
    }

    /// The rotation that follows the mirroring.
    pub open spec fn rotation(self) -> Rotation {
        match self {
            Orientation::Id | Orientation::Mirrored => Rotation::_0,
            Orientation::Rotation90 | Orientation::MirroredRotation90 => Rotation::_90,
            Orientation::Rotation180 | Orientation::MirroredRotation180 => Rotation::_180,
            Orientation::Rotation270 | Orientation::MirroredRotation270 => Rotation::_270,
        }
    }

    /// The orientation for an EXIF orientation value, which is one of 1 to 8.
    pub fn from_exif(value: u16) -> (orientation: Option<Orientation>)
        ensures
            orientation == Orientation::of_exif(value as int),
            orientation is Some <==> 1 <= value <= 8,
    {
        match value {
            1 => Some(Orientation::Id),
            2 => Some(Orientation::Mirrored),
            3 => Some(Orientation::Rotation180),
            4 => Some(Orientation::MirroredRotation180),
            5 => Some(Orientation::MirroredRotation90),
            6 => Some(Orientation::Rotation270),
            7 => Some(Orientation::MirroredRotation270),
            8 => Some(Orientation::Rotation90),
            _ => None,
        }
    }

    pub fn mirror(self) -> (mirrored: bool)
        ensures
            mirrored == self.mirrored(),
    {
        match self {
            Orientation::Mirrored
            | Orientation::MirroredRotation90
            | Orientation::MirroredRotation180
            | Orientation::MirroredRotation270 => true,
            _ => false,
        }
    }

    pub fn rotate(self) -> (rotation: Rotation)
        ensures
            rotation == self.rotation(),
    {
        match self {
            Orientation::Id | Orientation::Mirrored => Rotation::_0,
            Orientation::Rotation90 | Orientation::MirroredRotation90 => Rotation::_90,
            Orientation::Rotation180 | Orientation::MirroredRotation180 => Rotation::_180,
            Orientation::Rotation270 | Orientation::MirroredRotation270 => Rotation::_270,
        }
    }
}

/// Byte `i` of the pixel in column `x` of row `y`, in a buffer whose rows
/// start `stride` bytes apart and whose pixels take `ps` bytes.
pub open spec fn pixel_byte(buf: Seq<u8>, stride: int, ps: int, x: int, y: int, i: int) -> u8 {
    buf[y * stride + x * ps + i]
}

/// Byte `c` of row `y`.
pub open spec fn row_byte(buf: Seq<u8>, stride: int, y: int, c: int) -> u8 {
    buf[y * stride + c]
}

/// A buffer of `len` bytes holds `h` rows of `w` pixels of `ps` bytes.
pub open spec fn layout_fits(len: int, w: int, h: int, stride: int, ps: int) -> bool {
    &&& 1 <= ps
    &&& 0 <= w
    &&& 0 <= h
    &&& w * ps <= stride
    &&& h * stride <= len
}

/// `out` holds the image of `inp` in the same layout, with the columns in
/// the opposite order where `flip_x` is set and the rows in the opposite
/// order where `flip_y` is set. Padding and what follows the rows are as in
/// `inp`.
pub open spec fn is_flipped(
    out: Seq<u8>,
    inp: Seq<u8>,
    w: int,
    h: int,
    stride: int,
    ps: int,
    flip_x: bool,
    flip_y: bool,
) -> bool {
    &&& out.len() == inp.len()
    &&& forall|x: int, y: int, i: int|
        0 <= x < w && 0 <= y < h && 0 <= i < ps ==> #[trigger] pixel_byte(out, stride, ps, x, y, i)
            == pixel_byte(
            inp,
            stride,
            ps,
            if flip_x {
                w - 1 - x
            } else {
                x
            },
            if flip_y {
                h - 1 - y
            } else {
                y
            },
            i,
        )
    &&& forall|y: int, c: int|
        0 <= y < h && w * ps <= c < stride ==> #[trigger] row_byte(out, stride, y, c) == row_byte(
            inp,
            stride,
            y,
            c,
        )
    &&& forall|k: int| h * stride <= k < inp.len() ==> #[trigger] out[k] == inp[k]
}

/// `out` is a buffer without padding of `w` rows of `h` pixels. Its pixel at
/// (x, y) is the pixel of `inp` in column y and row x, the column counted
/// from the right where `from_right` is set and the row counted from the
/// bottom where `from_bottom` is set.
pub open spec fn is_turned(
    out: Seq<u8>,
    inp: Seq<u8>,
    w: int,
    h: int,
    stride: int,
    ps: int,
    from_right: bool,
    from_bottom: bool,
) -> bool {
    &&& out.len() == w * h * ps
    &&& forall|x: int, y: int, i: int|
        0 <= x < h && 0 <= y < w && 0 <= i < ps ==> #[trigger] pixel_byte(out, h * ps, ps, x, y, i)
            == pixel_byte(
            inp,
            stride,
            ps,
            if from_right {
                w - 1 - y
            } else {
                y
            },
            if from_bottom {
                h - 1 - x
            } else {
                x
            },
            i,
        )
}

/// `out` is the image of `inp` after the mirroring and the rotation of
/// `orientation`. With no rotation or half a turn the layout stays; with a
/// quarter turn either way `out` has `w` rows of `h` pixels and no padding.
///
/// Mirroring exchanges the columns x and w - 1 - x. A rotation by 90 puts
/// the pixel of column w - 1 - y and row x at (x, y), a rotation by 180 the
/// pixel of (w - 1 - x, h - 1 - y), and a rotation by 270 the pixel of
/// column y and row h - 1 - x.
pub open spec fn is_oriented(
    out: Seq<u8>,
    inp: Seq<u8>,
    orientation: Orientation,
    w: int,
    h: int,
    stride: int,
    ps: int,
) -> bool {
    match orientation {
        Orientation::Id => is_flipped(out, inp, w, h, stride, ps, false, false),
        Orientation::Mirrored => is_flipped(out, inp, w, h, stride, ps, true, false),
        Orientation::Rotation180 => is_flipped(out, inp, w, h, stride, ps, true, true),
        Orientation::MirroredRotation180 => is_flipped(out, inp, w, h, stride, ps, false, true),
        Orientation::Rotation90 => is_turned(out, inp, w, h, stride, ps, true, false),
        Orientation::MirroredRotation90 => is_turned(out, inp, w, h, stride, ps, false, false),
        Orientation::Rotation270 => is_turned(out, inp, w, h, stride, ps, false, true),
        Orientation::MirroredRotation270 => is_turned(out, inp, w, h, stride, ps, true, true),
    }
}

/// Where a pixel byte lies: inside its row, and the row inside the buffer.
pub proof fn lemma_pixel_offset(w: int, h: int, stride: int, ps: int, x: int, y: int, i: int)
    requires
        0 <= x < w,
        0 <= y < h,
        0 <= i < ps,
        w * ps <= stride,
    ensures
        0 <= x * ps,
        x * ps + ps <= w * ps,
        0 <= y * stride,
        y * stride + stride <= h * stride,
        0 <= y * stride + x * ps + i < h * stride,
{
    assert(0 <= x * ps && x * ps + ps <= w * ps) by (nonlinear_arith)
        requires
            0 <= x < w,
            0 < ps,
    ;
    assert(0 <= y * stride && y * stride + stride <= h * stride) by (nonlinear_arith)
        requires
            0 <= y < h,
            0 <= stride,
    ;
}

/// Two rows, or two pixels of a row, do not overlap.
pub proof fn lemma_offset_order(a: int, b: int, unit: int)
    requires
        0 <= a < b,
        0 <= unit,
    ensures
        a * unit + unit <= b * unit,
        0 <= a * unit,
{
    assert(a * unit + unit <= b * unit && 0 <= a * unit) by (nonlinear_arith)
        requires
            0 <= a < b,
            0 <= unit,
    ;
}

/// Exchanges the `ps` bytes at `p0` with the `ps` bytes at `p1`.
fn swap_pixels(buf: &mut [u8], p0: usize, p1: usize, ps: usize)
    requires
        p0 + ps <= p1,
        p1 + ps <= old(buf)@.len(),
    ensures
        final(buf)@.len() == old(buf)@.len(),
        forall|i: int| 0 <= i < ps ==> #[trigger] final(buf)@[p0 + i] == old(buf)@[p1 + i],
        forall|i: int| 0 <= i < ps ==> #[trigger] final(buf)@[p1 + i] == old(buf)@[p0 + i],
        forall|k: int|
            0 <= k < old(buf)@.len() && !(p0 <= k < p0 + ps) && !(p1 <= k < p1 + ps)
                ==> #[trigger] final(buf)@[k] == old(buf)@[k],
{
    let mut i: usize = 0;
    while i < ps
        invariant
            0 <= i <= ps,
            p0 + ps <= p1,
            p1 + ps <= buf@.len(),
            buf@.len() == old(buf)@.len(),
            forall|j: int| 0 <= j < i ==> #[trigger] buf@[p0 + j] == old(buf)@[p1 + j],
            forall|j: int| 0 <= j < i ==> #[trigger] buf@[p1 + j] == old(buf)@[p0 + j],
            forall|k: int|
                0 <= k < buf@.len() && !(p0 <= k < p0 + i) && !(p1 <= k < p1 + i)
                    ==> #[trigger] buf@[k] == old(buf)@[k],
        decreases ps - i,
    {
        let a = buf[p0 + i];
        let b = buf[p1 + i];
        buf[p0 + i] = b;
        buf[p1 + i] = a;
        i += 1;
    }
}

/// Byte `i` of pixel `x` in the row that starts at `start`.
pub open spec fn seg_byte(buf: Seq<u8>, start: int, ps: int, x: int, i: int) -> u8 {
    buf[start + x * ps + i]
}

/// Exchanges pixel x of the row at `r0` with pixel w - 1 - x of the row at
/// `r1`, for every x. The two rows do not overlap.
fn swap_rows_reversed(buf: &mut [u8], r0: usize, r1: usize, w: usize, ps: usize)
    requires
        1 <= ps,
        r0 + w * ps <= r1,
        r1 + w * ps <= old(buf)@.len(),
    ensures
        final(buf)@.len() == old(buf)@.len(),
        forall|x: int, i: int|
            0 <= x < w && 0 <= i < ps ==> #[trigger] seg_byte(final(buf)@, r0 as int, ps as int, x, i)
                == seg_byte(old(buf)@, r1 as int, ps as int, w - 1 - x, i),
        forall|x: int, i: int|
            0 <= x < w && 0 <= i < ps ==> #[trigger] seg_byte(final(buf)@, r1 as int, ps as int, x, i)
                == seg_byte(old(buf)@, r0 as int, ps as int, w - 1 - x, i),
        forall|k: int|
            0 <= k < old(buf)@.len() && !(r0 <= k < r0 + w * ps) && !(r1 <= k < r1 + w * ps)
                ==> #[trigger] final(buf)@[k] == old(buf)@[k],
{
    let len = buf.len();
    let mut x: usize = 0;
    while x < w
        invariant
            1 <= ps,
            0 <= x <= w,
            len == buf@.len(),
            r0 + w * ps <= r1,
            r1 + w * ps <= buf@.len(),
            buf@.len() == old(buf)@.len(),
            forall|xx: int, i: int|
                0 <= xx < x && 0 <= i < ps ==> #[trigger] seg_byte(buf@, r0 as int, ps as int, xx, i)
                    == seg_byte(old(buf)@, r1 as int, ps as int, w - 1 - xx, i),
            forall|xx: int, i: int|
                w - x <= xx < w && 0 <= i < ps ==> #[trigger] seg_byte(
                    buf@,
                    r1 as int,
                    ps as int,
                    xx,
                    i,
                ) == seg_byte(old(buf)@, r0 as int, ps as int, w - 1 - xx, i),
            forall|k: int|
                0 <= k < buf@.len() && !(r0 <= k < r0 + x * ps) && !(r1 + (w - x) * ps <= k < r1 + w
                    * ps) ==> #[trigger] buf@[k] == old(buf)@[k],
        decreases w - x,
    {
        proof {
            lemma_pixel_offset(w as int, 1, (w * ps) as int, ps as int, x as int, 0, 0);
            lemma_pixel_offset(w as int, 1, (w * ps) as int, ps as int, w - 1 - x, 0, 0);
        }
        let p0 = r0 + x * ps;
        let p1 = r1 + (w - 1 - x) * ps;
        let ghost before = buf@;
        swap_pixels(buf, p0, p1, ps);
        proof {
            assert((w - x) * ps == (w - 1 - x) * ps + ps) by (nonlinear_arith);
            assert((x + 1) * ps == x * ps + ps) by (nonlinear_arith);
            assert forall|xx: int, i: int| 0 <= xx < x + 1 && 0 <= i < ps implies #[trigger] seg_byte(
                buf@,
                r0 as int,
                ps as int,
                xx,
                i,
            ) == seg_byte(old(buf)@, r1 as int, ps as int, w - 1 - xx, i) by {
                if xx < x {
                    lemma_offset_order(xx, x as int, ps as int);
                    assert(buf@[r0 + xx * ps + i] == before[r0 + xx * ps + i]);
                    assert(seg_byte(before, r0 as int, ps as int, xx, i) == seg_byte(
                        old(buf)@,
                        r1 as int,
                        ps as int,
                        w - 1 - xx,
                        i,
                    ));
                } else {
                    assert(buf@[p0 + i] == before[p1 + i]);
                    assert(before[p1 + i] == old(buf)@[p1 + i]);
                }
            }
            assert forall|xx: int, i: int|
                w - (x + 1) <= xx < w && 0 <= i < ps implies #[trigger] seg_byte(
                buf@,
                r1 as int,
                ps as int,
                xx,
                i,
            ) == seg_byte(old(buf)@, r0 as int, ps as int, w - 1 - xx, i) by {
                if xx > w - 1 - x {
                    lemma_offset_order(w - 1 - x, xx, ps as int);
                    lemma_pixel_offset(w as int, 1, (w * ps) as int, ps as int, xx, 0, i);
                    assert(buf@[r1 + xx * ps + i] == before[r1 + xx * ps + i]);
                    assert(seg_byte(before, r1 as int, ps as int, xx, i) == seg_byte(
                        old(buf)@,
                        r0 as int,
                        ps as int,
                        w - 1 - xx,
                        i,
                    ));
                } else {
                    assert(buf@[p1 + i] == before[p0 + i]);
                    assert(before[p0 + i] == old(buf)@[p0 + i]);
                }
            }
        }
        x += 1;
    }
    proof {
        assert((w - w) * ps == 0) by (nonlinear_arith);
    }
}

/// Puts the pixels of the row at `start` into the opposite order.
fn mirror_row(buf: &mut [u8], start: usize, w: usize, ps: usize)
    requires
        1 <= ps,
        start + w * ps <= old(buf)@.len(),
    ensures
        final(buf)@.len() == old(buf)@.len(),
        forall|x: int, i: int|
            0 <= x < w && 0 <= i < ps ==> #[trigger] seg_byte(
                final(buf)@,
                start as int,
                ps as int,
                x,
                i,
            ) == seg_byte(old(buf)@, start as int, ps as int, w - 1 - x, i),
        forall|k: int|
            0 <= k < old(buf)@.len() && !(start <= k < start + w * ps) ==> #[trigger] final(buf)@[k]
                == old(buf)@[k],
{
    let len = buf.len();
    let half = w / 2;
    let mut x: usize = 0;
    while x < half
        invariant
            1 <= ps,
            len == buf@.len(),
            half == w / 2,
            0 <= x <= half,
            start + w * ps <= buf@.len(),
            buf@.len() == old(buf)@.len(),
            forall|xx: int, i: int|
                (0 <= xx < x || w - x <= xx < w) && 0 <= i < ps ==> #[trigger] seg_byte(
                    buf@,
                    start as int,
                    ps as int,
                    xx,
                    i,
                ) == seg_byte(old(buf)@, start as int, ps as int, w - 1 - xx, i),
            forall|xx: int, i: int|
                x <= xx < w - x && 0 <= i < ps ==> #[trigger] seg_byte(
                    buf@,
                    start as int,
                    ps as int,
                    xx,
                    i,
                ) == seg_byte(old(buf)@, start as int, ps as int, xx, i),
            forall|k: int|
                0 <= k < buf@.len() && !(start <= k < start + w * ps) ==> #[trigger] buf@[k] == old(
                    buf,
                )@[k],
        decreases half - x,
    {
        proof {
            lemma_pixel_offset(w as int, 1, (w * ps) as int, ps as int, x as int, 0, 0);
            lemma_pixel_offset(w as int, 1, (w * ps) as int, ps as int, w - 1 - x, 0, 0);
            lemma_offset_order(x as int, w - 1 - x, ps as int);
        }
        let p0 = start + x * ps;
        let p1 = start + (w - 1 - x) * ps;
        let ghost before = buf@;
        swap_pixels(buf, p0, p1, ps);
        proof {
            assert forall|xx: int, i: int|
                (0 <= xx < x + 1 || w - (x + 1) <= xx < w) && 0 <= i < ps implies #[trigger] seg_byte(
                buf@,
                start as int,
                ps as int,
                xx,
                i,
            ) == seg_byte(old(buf)@, start as int, ps as int, w - 1 - xx, i) by {
                if xx == x {
                    assert(buf@[p0 + i] == before[p1 + i]);
                    assert(seg_byte(before, start as int, ps as int, w - 1 - x, i) == seg_byte(
                        old(buf)@,
                        start as int,
                        ps as int,
                        w - 1 - x,
                        i,
                    ));
                } else if xx == w - 1 - x {
                    assert(buf@[p1 + i] == before[p0 + i]);
                    assert(seg_byte(before, start as int, ps as int, x as int, i) == seg_byte(
                        old(buf)@,
                        start as int,
                        ps as int,
                        x as int,
                        i,
                    ));
                } else {
                    lemma_pixel_offset(w as int, 1, (w * ps) as int, ps as int, xx, 0, i);
                    if xx < x {
                        lemma_offset_order(xx, x as int, ps as int);
                    } else {
                        lemma_offset_order(w - 1 - x, xx, ps as int);
                    }
                    assert(buf@[start + xx * ps + i] == before[start + xx * ps + i]);
                    assert(seg_byte(before, start as int, ps as int, xx, i) == seg_byte(
                        old(buf)@,
                        start as int,
                        ps as int,
                        w - 1 - xx,
                        i,
                    ));
                }
            }
            assert forall|xx: int, i: int|
                x + 1 <= xx < w - (x + 1) && 0 <= i < ps implies #[trigger] seg_byte(
                buf@,
                start as int,
                ps as int,
                xx,
                i,
            ) == seg_byte(old(buf)@, start as int, ps as int, xx, i) by {
                lemma_pixel_offset(w as int, 1, (w * ps) as int, ps as int, xx, 0, i);
                lemma_offset_order(x as int, xx, ps as int);
                lemma_offset_order(xx, w - 1 - x, ps as int);
                assert(buf@[start + xx * ps + i] == before[start + xx * ps + i]);
                assert(seg_byte(before, start as int, ps as int, xx, i) == seg_byte(
                    old(buf)@,
                    start as int,
                    ps as int,
                    xx,
                    i,
                ));
            }
            assert forall|k: int|
                0 <= k < buf@.len() && !(start <= k < start + w * ps) implies #[trigger] buf@[k]
                == old(buf)@[k] by {
                assert(buf@[k] == before[k]);
            }
        }
        x += 1;
    }
    proof {
        // An odd row keeps its middle pixel, which is its own mirror image.
        assert forall|xx: int, i: int| 0 <= xx < w && 0 <= i < ps implies #[trigger] seg_byte(
            buf@,
            start as int,
            ps as int,
            xx,
            i,
        ) == seg_byte(old(buf)@, start as int, ps as int, w - 1 - xx, i) by {
            if x <= xx < w - x {
                assert(xx == w - 1 - xx);
                assert(seg_byte(buf@, start as int, ps as int, xx, i) == seg_byte(
                    old(buf)@,
                    start as int,
                    ps as int,
                    xx,
                    i,
                ));
            }
        }
    }
}

/// Mirrors every row of the image in place.
fn mirror(buf: &mut [u8], w: usize, h: usize, stride: usize, ps: usize)
    requires
        layout_fits(old(buf)@.len() as int, w as int, h as int, stride as int, ps as int),
    ensures
        is_flipped(final(buf)@, old(buf)@, w as int, h as int, stride as int, ps as int, true, false),
{
    let len = buf.len();
    let mut y: usize = 0;
    while y < h
        invariant
            len == buf@.len(),
            buf@.len() == old(buf)@.len(),
            layout_fits(len as int, w as int, h as int, stride as int, ps as int),
            0 <= y <= h,
            forall|x: int, yy: int, i: int|
                0 <= x < w && 0 <= yy < y && 0 <= i < ps ==> #[trigger] pixel_byte(
                    buf@,
                    stride as int,
                    ps as int,
                    x,
                    yy,
                    i,
                ) == pixel_byte(old(buf)@, stride as int, ps as int, w - 1 - x, yy, i),
            forall|yy: int, c: int|
                0 <= yy < y && w * ps <= c < stride ==> #[trigger] row_byte(
                    buf@,
                    stride as int,
                    yy,
                    c,
                ) == row_byte(old(buf)@, stride as int, yy, c),
            forall|k: int| y * stride <= k < len ==> #[trigger] buf@[k] == old(buf)@[k],
        decreases h - y,
    {
        proof {
            lemma_offset_order(y as int, h as int, stride as int);
        }
        let start = y * stride;
        let ghost before = buf@;
        mirror_row(buf, start, w, ps);
        proof {
            assert((y + 1) * stride == y * stride + stride) by (nonlinear_arith);
            assert forall|x: int, yy: int, i: int|
                0 <= x < w && 0 <= yy < y + 1 && 0 <= i < ps implies #[trigger] pixel_byte(
                buf@,
                stride as int,
                ps as int,
                x,
                yy,
                i,
            ) == pixel_byte(old(buf)@, stride as int, ps as int, w - 1 - x, yy, i) by {
                lemma_pixel_offset(w as int, h as int, stride as int, ps as int, x, yy, i);
                lemma_pixel_offset(w as int, h as int, stride as int, ps as int, w - 1 - x, yy, i);
                if yy < y {
                    lemma_offset_order(yy, y as int, stride as int);
                    assert(buf@[yy * stride + x * ps + i] == before[yy * stride + x * ps + i]);
                    assert(pixel_byte(before, stride as int, ps as int, x, yy, i) == pixel_byte(
                        old(buf)@,
                        stride as int,
                        ps as int,
                        w - 1 - x,
                        yy,
                        i,
                    ));
                } else {
                    assert(seg_byte(buf@, start as int, ps as int, x, i) == seg_byte(
                        before,
                        start as int,
                        ps as int,
                        w - 1 - x,
                        i,
                    ));
                    assert(before[start + (w - 1 - x) * ps + i] == old(buf)@[start + (w - 1 - x) * ps
                        + i]);
                }
            }
            assert forall|yy: int, c: int|
                0 <= yy < y + 1 && w * ps <= c < stride implies #[trigger] row_byte(
                buf@,
                stride as int,
                yy,
                c,
            ) == row_byte(old(buf)@, stride as int, yy, c) by {
                lemma_offset_order(yy, h as int, stride as int);
                if yy < y {
                    lemma_offset_order(yy, y as int, stride as int);
                    assert(buf@[yy * stride + c] == before[yy * stride + c]);
                    assert(row_byte(before, stride as int, yy, c) == row_byte(
                        old(buf)@,
                        stride as int,
                        yy,
                        c,
                    ));
                } else {
                    assert(buf@[start + c] == before[start + c]);
                    assert(before[start + c] == old(buf)@[start + c]);
                }
            }
            assert forall|k: int| (y + 1) * stride <= k < len implies #[trigger] buf@[k] == old(
                buf,
            )@[k] by {
                assert(buf@[k] == before[k]);
            }
        }
        y += 1;
    }
}

/// Turns the image by half a turn in place.
fn rotate_180(buf: &mut [u8], w: usize, h: usize, stride: usize, ps: usize)
    requires
        layout_fits(old(buf)@.len() as int, w as int, h as int, stride as int, ps as int),
    ensures
        is_flipped(final(buf)@, old(buf)@, w as int, h as int, stride as int, ps as int, true, true),
{
    let len = buf.len();
    let half = h / 2;
    let mut y: usize = 0;
    while y < half
        invariant
            len == buf@.len(),
            buf@.len() == old(buf)@.len(),
            layout_fits(len as int, w as int, h as int, stride as int, ps as int),
            half == h / 2,
            0 <= y <= half,
            forall|x: int, yy: int, i: int|
                0 <= x < w && (0 <= yy < y || h - y <= yy < h) && 0 <= i < ps
                    ==> #[trigger] pixel_byte(buf@, stride as int, ps as int, x, yy, i)
                    == pixel_byte(old(buf)@, stride as int, ps as int, w - 1 - x, h - 1 - yy, i),
            forall|yy: int, c: int|
                0 <= yy < h && w * ps <= c < stride ==> #[trigger] row_byte(
                    buf@,
                    stride as int,
                    yy,
                    c,
                ) == row_byte(old(buf)@, stride as int, yy, c),
            forall|k: int|
                y * stride <= k < (h - y) * stride ==> #[trigger] buf@[k] == old(buf)@[k],
            forall|k: int| h * stride <= k < len ==> #[trigger] buf@[k] == old(buf)@[k],
        decreases half - y,
    {
        proof {
            lemma_offset_order(y as int, h - 1 - y, stride as int);
            lemma_offset_order(h - 1 - y, h as int, stride as int);
        }
        let r0 = y * stride;
        let r1 = (h - 1 - y) * stride;
        let ghost before = buf@;
        swap_rows_reversed(buf, r0, r1, w, ps);
        proof {
            assert((y + 1) * stride == y * stride + stride) by (nonlinear_arith);
            assert((h - y) * stride == (h - 1 - y) * stride + stride) by (nonlinear_arith);
            assert((h - (y + 1)) * stride == (h - 1 - y) * stride) by (nonlinear_arith);
            assert forall|x: int, yy: int, i: int|
                0 <= x < w && (0 <= yy < y + 1 || h - (y + 1) <= yy < h) && 0 <= i
                    < ps implies #[trigger] pixel_byte(buf@, stride as int, ps as int, x, yy, i)
                == pixel_byte(old(buf)@, stride as int, ps as int, w - 1 - x, h - 1 - yy, i) by {
                lemma_pixel_offset(w as int, h as int, stride as int, ps as int, x, yy, i);
                lemma_pixel_offset(w as int, h as int, stride as int, ps as int, w - 1 - x, h - 1 - yy, i);
                if yy == y {
                    assert(seg_byte(buf@, r0 as int, ps as int, x, i) == seg_byte(
                        before,
                        r1 as int,
                        ps as int,
                        w - 1 - x,
                        i,
                    ));
                    assert(before[r1 + (w - 1 - x) * ps + i] == old(buf)@[r1 + (w - 1 - x) * ps + i]);
                } else if yy == h - 1 - y {
                    assert(seg_byte(buf@, r1 as int, ps as int, x, i) == seg_byte(
                        before,
                        r0 as int,
                        ps as int,
                        w - 1 - x,
                        i,
                    ));
                    assert(before[r0 + (w - 1 - x) * ps + i] == old(buf)@[r0 + (w - 1 - x) * ps + i]);
                } else {
                    if yy < y {
                        lemma_offset_order(yy, y as int, stride as int);
                    } else {
                        lemma_offset_order(h - 1 - y, yy, stride as int);
                    }
                    assert(buf@[yy * stride + x * ps + i] == before[yy * stride + x * ps + i]);
                    assert(pixel_byte(before, stride as int, ps as int, x, yy, i) == pixel_byte(
                        old(buf)@,
                        stride as int,
                        ps as int,
                        w - 1 - x,
                        h - 1 - yy,
                        i,
                    ));
                }
            }
            assert forall|yy: int, c: int|
                0 <= yy < h && w * ps <= c < stride implies #[trigger] row_byte(
                buf@,
                stride as int,
                yy,
                c,
            ) == row_byte(old(buf)@, stride as int, yy, c) by {
                lemma_offset_order(yy, h as int, stride as int);
                if yy < y {
                    lemma_offset_order(yy, y as int, stride as int);
                } else if yy > y {
                    lemma_offset_order(y as int, yy, stride as int);
                }
                if yy < h - 1 - y {
                    lemma_offset_order(yy, h - 1 - y, stride as int);
                } else if yy > h - 1 - y {
                    lemma_offset_order(h - 1 - y, yy, stride as int);
                }
                assert(buf@[yy * stride + c] == before[yy * stride + c]);
                assert(row_byte(before, stride as int, yy, c) == row_byte(
                    old(buf)@,
                    stride as int,
                    yy,
                    c,
                ));
            }
            assert forall|k: int|
                (y + 1) * stride <= k < (h - (y + 1)) * stride implies #[trigger] buf@[k] == old(
                buf,
            )@[k] by {
                assert(buf@[k] == before[k]);
            }
            assert forall|k: int| h * stride <= k < len implies #[trigger] buf@[k] == old(buf)@[k] by {
                assert(buf@[k] == before[k]);
            }
        }
        y += 1;
    }
    if h % 2 == 1 {
        proof {
            lemma_offset_order(half as int, h as int, stride as int);
        }
        let start = half * stride;
        let ghost before = buf@;
        mirror_row(buf, start, w, ps);
        proof {
            assert((h - half) * stride == half * stride + stride) by (nonlinear_arith)
                requires
                    h - half == half + 1,
            ;
            assert forall|x: int, yy: int, i: int|
                0 <= x < w && 0 <= yy < h && 0 <= i < ps implies #[trigger] pixel_byte(
                buf@,
                stride as int,
                ps as int,
                x,
                yy,
                i,
            ) == pixel_byte(old(buf)@, stride as int, ps as int, w - 1 - x, h - 1 - yy, i) by {
                lemma_pixel_offset(w as int, h as int, stride as int, ps as int, x, yy, i);
                lemma_pixel_offset(w as int, h as int, stride as int, ps as int, w - 1 - x, h - 1 - yy, i);
                if yy == half {
                    assert(seg_byte(buf@, start as int, ps as int, x, i) == seg_byte(
                        before,
                        start as int,
                        ps as int,
                        w - 1 - x,
                        i,
                    ));
                    assert(before[start + (w - 1 - x) * ps + i] == old(buf)@[start + (w - 1 - x) * ps
                        + i]);
                } else {
                    if yy < half {
                        lemma_offset_order(yy, half as int, stride as int);
                    } else {
                        lemma_offset_order(half as int, yy, stride as int);
                    }
                    assert(buf@[yy * stride + x * ps + i] == before[yy * stride + x * ps + i]);
                    assert(pixel_byte(before, stride as int, ps as int, x, yy, i) == pixel_byte(
                        old(buf)@,
                        stride as int,
                        ps as int,
                        w - 1 - x,
                        h - 1 - yy,
                        i,
                    ));
                }
            }
            assert forall|yy: int, c: int|
                0 <= yy < h && w * ps <= c < stride implies #[trigger] row_byte(
                buf@,
                stride as int,
                yy,
                c,
            ) == row_byte(old(buf)@, stride as int, yy, c) by {
                lemma_offset_order(yy, h as int, stride as int);
                if yy < half {
                    lemma_offset_order(yy, half as int, stride as int);
                } else if yy > half {
                    lemma_offset_order(half as int, yy, stride as int);
                }
                assert(buf@[yy * stride + c] == before[yy * stride + c]);
                assert(row_byte(before, stride as int, yy, c) == row_byte(
                    old(buf)@,
                    stride as int,
                    yy,
                    c,
                ));
            }
            assert forall|k: int| h * stride <= k < len implies #[trigger] buf@[k] == old(buf)@[k] by {
                assert(buf@[k] == before[k]);
            }
        }
    }
}

/// The image turned by a quarter turn, in a new buffer without padding. The
/// flags choose the direction, as `is_turned` says.
fn turned(
    buf: &[u8],
    w: usize,
    h: usize,
    stride: usize,
    ps: usize,
    from_right: bool,
    from_bottom: bool,
) -> (out: Vec<u8>)
    requires
        layout_fits(buf@.len() as int, w as int, h as int, stride as int, ps as int),
    ensures
        is_turned(
            out@,
            buf@,
            w as int,
            h as int,
            stride as int,
            ps as int,
            from_right,
            from_bottom,
        ),
{
    let len = buf.len();
    let ghost row = h * ps;
    let mut out: Vec<u8> = Vec::new();
    let mut y: usize = 0;
    while y < w
        invariant
            len == buf@.len(),
            layout_fits(len as int, w as int, h as int, stride as int, ps as int),
            row == h * ps,
            0 <= y <= w,
            out@.len() == y * row,
            forall|x: int, yy: int, i: int|
                0 <= x < h && 0 <= yy < y && 0 <= i < ps ==> #[trigger] pixel_byte(
                    out@,
                    row,
                    ps as int,
                    x,
                    yy,
                    i,
                ) == pixel_byte(
                    buf@,
                    stride as int,
                    ps as int,
                    if from_right {
                        w - 1 - yy
                    } else {
                        yy
                    },
                    if from_bottom {
                        h - 1 - x
                    } else {
                        x
                    },
                    i,
                ),
        decreases w - y,
    {
        let sx = if from_right {
            w - 1 - y
        } else {
            y
        };
        let mut x: usize = 0;
        while x < h
            invariant
                len == buf@.len(),
                layout_fits(len as int, w as int, h as int, stride as int, ps as int),
                row == h * ps,
                0 <= y < w,
                0 <= x <= h,
                sx == if from_right {
                    w - 1 - y
                } else {
                    y as int
                },
                out@.len() == y * row + x * ps,
                forall|xx: int, yy: int, i: int|
                    0 <= xx < h && 0 <= yy < y && 0 <= i < ps ==> #[trigger] pixel_byte(
                        out@,
                        row,
                        ps as int,
                        xx,
                        yy,
                        i,
                    ) == pixel_byte(
                        buf@,
                        stride as int,
                        ps as int,
                        if from_right {
                            w - 1 - yy
                        } else {
                            yy
                        },
                        if from_bottom {
                            h - 1 - xx
                        } else {
                            xx
                        },
                        i,
                    ),
                forall|xx: int, i: int|
                    0 <= xx < x && 0 <= i < ps ==> #[trigger] pixel_byte(
                        out@,
                        row,
                        ps as int,
                        xx,
                        y as int,
                        i,
                    ) == pixel_byte(
                        buf@,
                        stride as int,
                        ps as int,
                        sx as int,
                        if from_bottom {
                            h - 1 - xx
                        } else {
                            xx
                        },
                        i,
                    ),
            decreases h - x,
        {
            let sy = if from_bottom {
                h - 1 - x
            } else {
                x
            };
            proof {
                lemma_pixel_offset(w as int, h as int, stride as int, ps as int, sx as int, sy as int, 0);
            }
            let p0 = sy * stride + sx * ps;
            let ghost before = out@;
            let mut i: usize = 0;
            while i < ps
                invariant
                    len == buf@.len(),
                    0 <= i <= ps,
                    p0 + ps <= len,
                    out@.len() == before.len() + i,
                    forall|k: int| 0 <= k < before.len() ==> #[trigger] out@[k] == before[k],
                    forall|j: int| 0 <= j < i ==> #[trigger] out@[before.len() + j] == buf@[p0 + j],
                decreases ps - i,
            {
                out.push(buf[p0 + i]);
                i += 1;
            }
            proof {
                assert((x + 1) * ps == x * ps + ps) by (nonlinear_arith);
                assert forall|xx: int, yy: int, i: int|
                    0 <= xx < h && 0 <= yy < y && 0 <= i < ps implies #[trigger] pixel_byte(
                    out@,
                    row,
                    ps as int,
                    xx,
                    yy,
                    i,
                ) == pixel_byte(
                    buf@,
                    stride as int,
                    ps as int,
                    if from_right {
                        w - 1 - yy
                    } else {
                        yy
                    },
                    if from_bottom {
                        h - 1 - xx
                    } else {
                        xx
                    },
                    i,
                ) by {
                    lemma_pixel_offset(h as int, w as int, row, ps as int, xx, yy, i);
                    lemma_offset_order(yy, y as int, row);
                    assert(out@[yy * row + xx * ps + i] == before[yy * row + xx * ps + i]);
                    assert(pixel_byte(before, row, ps as int, xx, yy, i) == pixel_byte(
                        buf@,
                        stride as int,
                        ps as int,
                        if from_right {
                            w - 1 - yy
                        } else {
                            yy
                        },
                        if from_bottom {
                            h - 1 - xx
                        } else {
                            xx
                        },
                        i,
                    ));
                }
                assert forall|xx: int, i: int|
                    0 <= xx < x + 1 && 0 <= i < ps implies #[trigger] pixel_byte(
                    out@,
                    row,
                    ps as int,
                    xx,
                    y as int,
                    i,
                ) == pixel_byte(
                    buf@,
                    stride as int,
                    ps as int,
                    sx as int,
                    if from_bottom {
                        h - 1 - xx
                    } else {
                        xx
                    },
                    i,
                ) by {
                    if xx < x {
                        lemma_offset_order(xx, x as int, ps as int);
                        assert(out@[y * row + xx * ps + i] == before[y * row + xx * ps + i]);
                        assert(pixel_byte(before, row, ps as int, xx, y as int, i) == pixel_byte(
                            buf@,
                            stride as int,
                            ps as int,
                            sx as int,
                            if from_bottom {
                                h - 1 - xx
                            } else {
                                xx
                            },
                            i,
                        ));
                    } else {
                        assert(out@[before.len() + i] == buf@[p0 + i]);
                    }
                }
            }
            x += 1;
        }
        proof {
            assert((y + 1) * row == y * row + h * ps) by (nonlinear_arith)
                requires
                    row == h * ps,
            ;
        }
        y += 1;
    }
    proof {
        assert(w * row == w * h * ps) by (nonlinear_arith)
            requires
                row == h * ps,
        ;
    }
    out
}

/// Composition of two flips of the columns and rows of an image.
pub proof fn lemma_flip_twice(
    out: Seq<u8>,
    mid: Seq<u8>,
    inp: Seq<u8>,
    w: int,
    h: int,
    stride: int,
    ps: int,
    x1: bool,
    y1: bool,
    x2: bool,
    y2: bool,
)
    requires
        is_flipped(mid, inp, w, h, stride, ps, x1, y1),
        is_flipped(out, mid, w, h, stride, ps, x2, y2),
    ensures
        is_flipped(out, inp, w, h, stride, ps, x1 != x2, y1 != y2),
{
    assert forall|x: int, y: int, i: int|
        0 <= x < w && 0 <= y < h && 0 <= i < ps implies #[trigger] pixel_byte(out, stride, ps, x, y, i)
        == pixel_byte(
        inp,
        stride,
        ps,
        if x1 != x2 {
            w - 1 - x
        } else {
            x
        },
        if y1 != y2 {
            h - 1 - y
        } else {
            y
        },
        i,
    ) by {
        let mx = if x2 {
            w - 1 - x
        } else {
            x
        };
        let my = if y2 {
            h - 1 - y
        } else {
            y
        };
        assert(pixel_byte(out, stride, ps, x, y, i) == pixel_byte(mid, stride, ps, mx, my, i));
        assert(pixel_byte(mid, stride, ps, mx, my, i) == pixel_byte(
            inp,
            stride,
            ps,
            if x1 {
                w - 1 - mx
            } else {
                mx
            },
            if y1 {
                h - 1 - my
            } else {
                my
            },
            i,
        ));
    }
    assert forall|y: int, c: int| 0 <= y < h && w * ps <= c < stride implies #[trigger] row_byte(
        out,
        stride,
        y,
        c,
    ) == row_byte(inp, stride, y, c) by {
        assert(row_byte(out, stride, y, c) == row_byte(mid, stride, y, c));
    }
    assert forall|k: int| h * stride <= k < inp.len() implies #[trigger] out[k] == inp[k] by {
        assert(out[k] == mid[k]);
    }
}

/// A quarter turn of a mirrored image is a quarter turn of the image that
/// counts the columns from the other side.
pub proof fn lemma_mirror_then_turn(
    out: Seq<u8>,
    mid: Seq<u8>,
    inp: Seq<u8>,
    w: int,
    h: int,
    stride: int,
    ps: int,
    from_right: bool,
    from_bottom: bool,
)
    requires
        is_flipped(mid, inp, w, h, stride, ps, true, false),
        is_turned(out, mid, w, h, stride, ps, from_right, from_bottom),
    ensures
        is_turned(out, inp, w, h, stride, ps, !from_right, from_bottom),
{
    assert forall|x: int, y: int, i: int|
        0 <= x < h && 0 <= y < w && 0 <= i < ps implies #[trigger] pixel_byte(out, h * ps, ps, x, y, i)
        == pixel_byte(
        inp,
        stride,
        ps,
        if !from_right {
            w - 1 - y
        } else {
            y
        },
        if from_bottom {
            h - 1 - x
        } else {
            x
        },
        i,
    ) by {
        let mx = if from_right {
            w - 1 - y
        } else {
            y
        };
        let my = if from_bottom {
            h - 1 - x
        } else {
            x
        };
        assert(pixel_byte(out, h * ps, ps, x, y, i) == pixel_byte(mid, stride, ps, mx, my, i));
        assert(pixel_byte(mid, stride, ps, mx, my, i) == pixel_byte(
            inp,
            stride,
            ps,
            w - 1 - mx,
            my,
            i,
        ));
    }
}

impl Orientation {
    /// The orientation that undoes this one.
    pub open spec fn inverse(self) -> Orientation {
        match self {
            Orientation::Rotation90 => Orientation::Rotation270,
            Orientation::Rotation270 => Orientation::Rotation90,
            _ => self,
        }
    }
}

/// The stride of an image of `w` by `h` pixels after the orientation: the
/// old one, or the bytes of a row of `h` pixels after a quarter turn.
pub open spec fn oriented_stride(orientation: Orientation, h: int, stride: int, ps: int) -> int {
    if is_quarter_turn(orientation.rotation()) {
        h * ps
    } else {
        stride
    }
}

/// An image that was stored turned shows upright again: where `stored` is
/// the image `upright` in the orientation that undoes `orientation`, and
/// `shown` is `stored` in the orientation `orientation`, every pixel of
/// `shown` is the pixel of `upright` at the same place.
pub proof fn lemma_orientation_round_trip(
    shown: Seq<u8>,
    stored: Seq<u8>,
    upright: Seq<u8>,
    orientation: Orientation,
    w: int,
    h: int,
    stride: int,
    ps: int,
)
    requires
        is_oriented(stored, upright, orientation.inverse(), w, h, stride, ps),
        is_oriented(
            shown,
            stored,
            orientation,
            if is_quarter_turn(orientation.rotation()) {
                h
            } else {
                w
            },
            if is_quarter_turn(orientation.rotation()) {
                w
            } else {
                h
            },
            oriented_stride(orientation.inverse(), h, stride, ps),
            ps,
        ),
    ensures
        forall|x: int, y: int, i: int|
            0 <= x < w && 0 <= y < h && 0 <= i < ps ==> #[trigger] pixel_byte(
                shown,
                oriented_stride(orientation, w, stride, ps),
                ps,
                x,
                y,
                i,
            ) == pixel_byte(upright, stride, ps, x, y, i),
{
    let quarter = is_quarter_turn(orientation.rotation());
    let mid_stride = oriented_stride(orientation.inverse(), h, stride, ps);
    let out_stride = oriented_stride(orientation, w, stride, ps);
    assert forall|x: int, y: int, i: int| 0 <= x < w && 0 <= y < h && 0 <= i < ps implies #[trigger] pixel_byte(
        shown,
        out_stride,
        ps,
        x,
        y,
        i,
    ) == pixel_byte(upright, stride, ps, x, y, i) by {
        // Where the pixel lies in the stored image.
        let (mx, my) = match orientation {
            Orientation::Id => (x, y),
            Orientation::Mirrored => (w - 1 - x, y),
            Orientation::Rotation180 => (w - 1 - x, h - 1 - y),
            Orientation::MirroredRotation180 => (x, h - 1 - y),
            Orientation::Rotation90 => (h - 1 - y, x),
            Orientation::MirroredRotation90 => (y, x),
            Orientation::Rotation270 => (y, w - 1 - x),
            Orientation::MirroredRotation270 => (h - 1 - y, w - 1 - x),
        };
        assert(pixel_byte(shown, out_stride, ps, x, y, i) == pixel_byte(
            stored,
            mid_stride,
            ps,
            mx,
            my,
            i,
        ));
        assert(pixel_byte(stored, mid_stride, ps, mx, my, i) == pixel_byte(
            upright,
            stride,
            ps,
            x,
            y,
            i,
        ));
    }
}

/// The frame's rows of pixels fit a buffer of `len` bytes.
pub open spec fn frame_fits(frame: Frame, len: int) -> bool {
    layout_fits(
        len,
        frame.width as int,
        frame.height as int,
        frame.stride as int,
        frame.memory_format.bytes_per_pixel() as int,
    )
}

/// Whether the rotation exchanges width and height.
pub open spec fn is_quarter_turn(rotation: Rotation) -> bool {
    rotation == Rotation::_90 || rotation == Rotation::_270
}

/// The frame after a quarter turn of `before`: width and height exchanged,
/// rows without padding, everything else as it was.
pub open spec fn is_turned_frame(after: Frame, before: Frame) -> bool {
    &&& after.width == before.height
    &&& after.height == before.width
    &&& after.stride == before.height * before.memory_format.bytes_per_pixel()
    &&& after.memory_format == before.memory_format
    &&& after.texture == before.texture
    &&& after.delay == before.delay
    &&& after.details == before.details
}

/// Mirrors and rotates the image as `transformation` says.
///
/// With no rotation or half a turn the pixels are rearranged in `img_buf`
/// and the result is `None`. With a quarter turn the result is a new buffer
/// without padding, and `frame` gets the new width, height and stride;
/// `img_buf` is then left mirrored where the orientation mirrors. Where the
/// stride after a quarter turn does not fit `u32`, nothing is changed and
/// the result is an error.
pub fn transform(img_buf: &mut [u8], frame: &mut Frame, transformation: Orientation) -> (r: Result<
    Option<Vec<u8>>,
    DimensionTooLargerError,
>)
    requires
        frame_fits(*old(frame), old(img_buf)@.len() as int),
    ensures
        r is Err <==> is_quarter_turn(transformation.rotation()) && old(frame).height * old(
            frame,
        ).memory_format.bytes_per_pixel() > u32::MAX,
        r is Err ==> final(img_buf)@ == old(img_buf)@ && *final(frame) == *old(frame),
        r is Ok ==> (r->Ok_0 is Some <==> is_quarter_turn(transformation.rotation())),
        r is Ok && r->Ok_0 is None ==> *final(frame) == *old(frame) && is_oriented(
            final(img_buf)@,
            old(img_buf)@,
            transformation,
            old(frame).width as int,
            old(frame).height as int,
            old(frame).stride as int,
            old(frame).memory_format.bytes_per_pixel() as int,
        ),
        r is Ok && r->Ok_0 is Some ==> is_turned_frame(*final(frame), *old(frame)) && is_oriented(
            r->Ok_0->0@,
            old(img_buf)@,
            transformation,
            old(frame).width as int,
            old(frame).height as int,
            old(frame).stride as int,
            old(frame).memory_format.bytes_per_pixel() as int,
        ) && is_flipped(
            final(img_buf)@,
            old(img_buf)@,
            old(frame).width as int,
            old(frame).height as int,
            old(frame).stride as int,
            old(frame).memory_format.bytes_per_pixel() as int,
            transformation.mirrored(),
            false,
        ),
{
    let stride = frame.stride as usize;
    let width = frame.width as usize;
    let height = frame.height as usize;
    let bytes = frame.memory_format.n_bytes();
    let pixel_size = bytes.usize();
    let rotation = transformation.rotate();

    let turned_stride: u32 = match rotation {
        Rotation::_90 | Rotation::_270 => {
            match frame.height.checked_mul(bytes.u32()) {
                Some(turned_stride) => turned_stride,
                None => {
                    return Err(DimensionTooLargerError);
                },
            }
        },
        _ => 0,
    };

    if transformation.mirror() {
        mirror(img_buf, width, height, stride, pixel_size);
    }
    let ghost mid = img_buf@;

    match rotation {
        Rotation::_0 => Ok(None),
        Rotation::_180 => {
            rotate_180(img_buf, width, height, stride, pixel_size);
            proof {
                if transformation.mirrored() {
                    lemma_flip_twice(
                        img_buf@,
                        mid,
                        old(img_buf)@,
                        width as int,
                        height as int,
                        stride as int,
                        pixel_size as int,
                        true,
                        false,
                        true,
                        true,
                    );
                }
            }
            Ok(None)
        },
        Rotation::_90 => {
            let v = turned(img_buf, width, height, stride, pixel_size, true, false);
            proof {
                if transformation.mirrored() {
                    lemma_mirror_then_turn(
                        v@,
                        mid,
                        old(img_buf)@,
                        width as int,
                        height as int,
                        stride as int,
                        pixel_size as int,
                        true,
                        false,
                    );
                }
            }
            frame.width = frame.height;
            frame.height = width as u32;
            frame.stride = turned_stride;
            Ok(Some(v))
        },
        Rotation::_270 => {
            let v = turned(img_buf, width, height, stride, pixel_size, false, true);
            proof {
                if transformation.mirrored() {
                    lemma_mirror_then_turn(
                        v@,
                        mid,
                        old(img_buf)@,
                        width as int,
                        height as int,
                        stride as int,
                        pixel_size as int,
                        false,
                        true,
                    );
                }
            }
            frame.width = frame.height;
            frame.height = width as u32;
            frame.stride = turned_stride;
            Ok(Some(v))
        },
    }
}

/// Applies the orientation that the image's EXIF data gives. Without EXIF
/// data, or where it cannot be read, `orientation` is `None` and the image
/// stays as it is.
pub fn apply_exif_orientation(
    img_buf: &mut [u8],
    frame: &mut Frame,
    orientation: Option<Orientation>,
) -> (r: Result<Option<Vec<u8>>, DimensionTooLargerError>)
    requires
        frame_fits(*old(frame), old(img_buf)@.len() as int),
    ensures
        orientation is None ==> r is Ok && r->Ok_0 is None && final(img_buf)@ == old(img_buf)@
            && *final(frame) == *old(frame),
        orientation is Some ==> {
            let transformation = orientation->0;
            let w = old(frame).width as int;
            let h = old(frame).height as int;
            let stride = old(frame).stride as int;
            let ps = old(frame).memory_format.bytes_per_pixel() as int;
            &&& r is Err <==> is_quarter_turn(transformation.rotation()) && h * ps > u32::MAX
            &&& r is Err ==> final(img_buf)@ == old(img_buf)@ && *final(frame) == *old(frame)
            &&& r is Ok ==> (r->Ok_0 is Some <==> is_quarter_turn(transformation.rotation()))
            &&& r is Ok && r->Ok_0 is None ==> *final(frame) == *old(frame) && is_oriented(
                final(img_buf)@,
                old(img_buf)@,
                transformation,
                w,
                h,
                stride,
                ps,
            )
            &&& r is Ok && r->Ok_0 is Some ==> is_turned_frame(*final(frame), *old(frame))
                && is_oriented(r->Ok_0->0@, old(img_buf)@, transformation, w, h, stride, ps)
                && is_flipped(
                final(img_buf)@,
                old(img_buf)@,
                w,
                h,
                stride,
                ps,
                transformation.mirrored(),
                false,
            )
        },
{
    match orientation {
        Some(transformation) => transform(img_buf, frame, transformation),
        None => Ok(None),
    }
}

} // verus!
