//! The planes of a picture: which can be drawn as they are, and shrinking those
//! that a graphics adapter cannot take.

use vstd::prelude::*;

use crate::media::PixelFormat;
use crate::text::push_decimal;
#[allow(unused_imports)]
use crate::text::decimal;

verus! {

// ───────────────────── pictures in an arena ─────────────────────

/// A plane of a picture: rows of bytes, `stride` bytes apart.
pub struct ArenaPlane<'a> {
    pub data: &'a [u8],
    pub stride: usize,
}

/// A picture in a decoder's arena.
pub struct ArenaFrame<'a> {
    pub width: u32,
    pub height: u32,
    pub pixel_format: PixelFormat,
    pub planes: Vec<ArenaPlane<'a>>,
}

/// The planes of a planar 4:2:0 picture, where they lie.
pub struct ArenaYuv420pView<'a> {
    pub width: u32,
    pub height: u32,
    pub y: &'a [u8],
    pub u: &'a [u8],
    pub v: &'a [u8],
    pub y_stride: u32,
    pub u_stride: u32,
    pub v_stride: u32,
}

/// Whether a plane of `len` bytes, with rows `stride` bytes apart, holds `rows`
/// rows of `row_bytes` bytes. The last row needs no padding.
pub open spec fn covers(len: int, stride: int, row_bytes: int, rows: int) -> bool {
    &&& stride >= row_bytes
    &&& rows > 0
    &&& stride * (rows - 1) + row_bytes <= len
}

/// Whether `plane` holds `rows` rows of `row_bytes` bytes, at a stride that a
/// graphics adapter can take.
pub open spec fn plane_fits(plane: ArenaPlane, row_bytes: int, rows: int) -> bool {
    covers(plane.data@.len() as int, plane.stride as int, row_bytes, rows) && plane.stride
        <= u32::MAX
}

impl<'a> ArenaFrame<'a> {
    /// Whether the picture can be drawn as it lies: planar 4:2:0, of even
    /// dimensions, with planes that hold the picture.
    pub open spec fn is_drawable(self) -> bool {
        &&& self.pixel_format == PixelFormat::Yuv420P
        &&& self.width > 0
        &&& self.height > 0
        &&& self.width % 2 == 0
        &&& self.height % 2 == 0
        &&& self.planes@.len() >= 3
        &&& plane_fits(self.planes@[0], self.width as int, self.height as int)
        &&& plane_fits(self.planes@[1], self.width as int / 2, self.height as int / 2)
        &&& plane_fits(self.planes@[2], self.width as int / 2, self.height as int / 2)
    }
}

/// Whether `data`, with rows `stride` bytes apart, holds `rows` rows of
/// `row_bytes` bytes.
pub fn plane_covers_image(data: &[u8], stride: usize, row_bytes: usize, rows: usize) -> (b: bool)
    ensures
        b == covers(data@.len() as int, stride as int, row_bytes as int, rows as int),
{
    if stride < row_bytes || rows == 0 {
        return false;
    }
    assert(stride * (rows - 1) <= 0xffff_ffff_ffff_ffffu64 * 0xffff_ffff_ffff_ffffu64)
        by (nonlinear_arith)
        requires
            0 <= stride <= 0xffff_ffff_ffff_ffffu64,
            1 <= rows <= 0xffff_ffff_ffff_ffffu64,
    ;
    let required: u128 = stride as u128 * (rows as u128 - 1) + row_bytes as u128;
    data.len() as u128 >= required
}

/// The planes of a picture that can be drawn as it lies; `None` for any other
/// picture.
pub fn arena_yuv420p_view<'a>(frame: &ArenaFrame<'a>) -> (view: Option<ArenaYuv420pView<'a>>)
    ensures
        view is Some <==> frame.is_drawable(),
        view matches Some(v) ==> {
            &&& v.width == frame.width
            &&& v.height == frame.height
            &&& v.y == frame.planes@[0].data
            &&& v.u == frame.planes@[1].data
            &&& v.v == frame.planes@[2].data
            &&& v.y_stride == frame.planes@[0].stride
            &&& v.u_stride == frame.planes@[1].stride
            &&& v.v_stride == frame.planes@[2].stride
        },
{
    let width: u32 = frame.width;
    let height: u32 = frame.height;
    if frame.pixel_format != PixelFormat::Yuv420P || width == 0 || height == 0 || width % 2 != 0
        || height % 2 != 0 || frame.planes.len() < 3 {
        return None;
    }
    let y = &frame.planes[0];
    let u = &frame.planes[1];
    let v = &frame.planes[2];
    let chroma_w: usize = (width / 2) as usize;
    let chroma_h: usize = (height / 2) as usize;
    if !plane_covers_image(y.data, y.stride, width as usize, height as usize)
        || !plane_covers_image(u.data, u.stride, chroma_w, chroma_h) || !plane_covers_image(
        v.data,
        v.stride,
        chroma_w,
        chroma_h,
    ) {
        return None;
    }
    let limit: u64 = u32::MAX as u64;
    if y.stride as u64 > limit || u.stride as u64 > limit || v.stride as u64 > limit {
        return None;
    }
    Some(
        ArenaYuv420pView {
            width,
            height,
            y: y.data,
            u: u.data,
            v: v.data,
            y_stride: y.stride as u32,
            u_stride: u.stride as u32,
            v_stride: v.stride as u32,
        },
    )
}

// ───────────────────── shrinking ─────────────────────

/// The sum of `n` bytes of `src` from `start` on.
pub open spec fn run_sum(src: Seq<u8>, start: int, n: nat) -> int
    decreases n,
{
    if n == 0 {
        0
    } else {
        run_sum(src, start, (n - 1) as nat) + src[start + n - 1]
    }
}

/// The sum of the first `rows` rows of the block at (`ox`, `oy`), in a plane of
/// width `src_w` that is cut into blocks of `factor` by `factor` bytes.
pub open spec fn block_sum(
    src: Seq<u8>,
    src_w: int,
    factor: int,
    ox: int,
    oy: int,
    rows: nat,
) -> int
    decreases rows,
{
    if rows == 0 {
        0
    } else {
        block_sum(src, src_w, factor, ox, oy, (rows - 1) as nat) + run_sum(
            src,
            (oy * factor + rows - 1) * src_w + ox * factor,
            factor as nat,
        )
    }
}

/// The mean of the block at (`ox`, `oy`), rounded down.
pub open spec fn block_mean(src: Seq<u8>, src_w: int, factor: int, ox: int, oy: int) -> int {
    block_sum(src, src_w, factor, ox, oy, factor as nat) / (factor * factor)
}

/// Whether a plane of `len` bytes, `src_w` bytes wide, holds every whole block of
/// `src_h` rows.
pub open spec fn blocks_fit(len: int, src_w: int, src_h: int, factor: int) -> bool {
    src_w / factor > 0 && src_h / factor > 0 ==> ((src_h / factor) * factor - 1) * src_w + (src_w
        / factor) * factor <= len
}

/// `src` shrunk: the means of its blocks, row by row.
pub open spec fn is_shrunk(
    out: Seq<u8>,
    src: Seq<u8>,
    src_w: int,
    src_h: int,
    factor: int,
) -> bool {
    &&& out.len() == (src_w / factor) * (src_h / factor)
    &&& forall|ox: int, oy: int|
        0 <= ox < src_w / factor && 0 <= oy < src_h / factor ==> out[oy * (src_w / factor) + ox]
            == #[trigger] block_mean(src, src_w, factor, ox, oy)
}

/// The sum of `n` bytes of `src` from `start` on.
fn sum_run(src: &[u8], start: usize, n: usize) -> (s: u128)
    requires
        start + n <= src@.len(),
    ensures
        s == run_sum(src@, start as int, n as nat),
        s <= 255 * n,
{
    let mut s: u128 = 0;
    let mut i: usize = 0;
    assert(src@.len() <= usize::MAX) by {
        let n: usize = src.len();
    }
    while i < n
        invariant
            i <= n,
            start + n <= src@.len() <= usize::MAX,
            s == run_sum(src@, start as int, i as nat),
            s <= 255 * i,
        decreases n - i,
    {
        s = s + src[start + i] as u128;
        i += 1;
    }
    s
}

proof fn lemma_row_in_plane(
    len: int,
    src_w: int,
    src_h: int,
    factor: int,
    ox: int,
    oy: int,
    dy: int,
)
    requires
        factor >= 2,
        src_w >= 0,
        src_h >= 0,
        0 <= ox < src_w / factor,
        0 <= oy < src_h / factor,
        0 <= dy < factor,
        blocks_fit(len, src_w, src_h, factor),
    ensures
        0 <= (oy * factor + dy) * src_w,
        0 <= ox * factor,
        0 <= oy * factor,
        (oy * factor + dy) * src_w + ox * factor + factor <= len,
        ox * factor + factor <= src_w,
        oy * factor + dy < src_h,
        factor * factor <= len,
{
    let ow = src_w / factor;
    let oh = src_h / factor;
    vstd::arithmetic::div_mod::lemma_fundamental_div_mod(src_w, factor);
    vstd::arithmetic::div_mod::lemma_fundamental_div_mod(src_h, factor);
    assert(ow * factor <= src_w) by (nonlinear_arith)
        requires
            src_w == factor * ow + src_w % factor,
            src_w % factor >= 0,
    ;
    assert(oh * factor <= src_h) by (nonlinear_arith)
        requires
            src_h == factor * oh + src_h % factor,
            src_h % factor >= 0,
    ;
    assert(ox * factor + factor <= ow * factor) by (nonlinear_arith)
        requires
            ox + 1 <= ow,
            factor >= 2,
    ;
    assert(oy * factor + factor <= oh * factor) by (nonlinear_arith)
        requires
            oy + 1 <= oh,
            factor >= 2,
    ;
    assert(0 <= ox * factor && 0 <= oy * factor) by (nonlinear_arith)
        requires
            ox >= 0,
            oy >= 0,
            factor >= 2,
    ;
    assert((oy * factor + dy) * src_w <= (oh * factor - 1) * src_w && 0 <= (oy * factor + dy)
        * src_w) by (nonlinear_arith)
        requires
            0 <= oy * factor + dy <= oh * factor - 1,
            src_w >= 0,
    ;
    // one block lies inside the plane
    assert(factor * factor <= (oh * factor - 1) * src_w + ow * factor) by (nonlinear_arith)
        requires
            oh * factor >= factor,
            ow * factor >= factor,
            src_w >= ow * factor,
            factor >= 2,
    ;
}

/// The sum of the block at (`ox`, `oy`).
fn sum_block(src: &[u8], src_w: usize, factor: usize, ox: usize, oy: usize, src_h: usize) -> (s:
    u128)
    requires
        factor >= 2,
        ox < src_w as int / factor as int,
        oy < src_h as int / factor as int,
        blocks_fit(src@.len() as int, src_w as int, src_h as int, factor as int),
    ensures
        s == block_sum(src@, src_w as int, factor as int, ox as int, oy as int, factor as nat),
        s <= 255 * (factor * factor),
{
    let mut s: u128 = 0;
    let mut dy: usize = 0;
    proof {
        lemma_row_in_plane(
            src@.len() as int,
            src_w as int,
            src_h as int,
            factor as int,
            ox as int,
            oy as int,
            0,
        );
    }
    let ghost limit = src@.len();
    assert(limit <= usize::MAX) by {
        let n: usize = src.len();
    }
    while dy < factor
        invariant
            dy <= factor,
            factor >= 2,
            limit == src@.len() <= usize::MAX,
            ox < src_w as int / factor as int,
            oy < src_h as int / factor as int,
            blocks_fit(src@.len() as int, src_w as int, src_h as int, factor as int),
            factor * factor <= limit,
            s == block_sum(src@, src_w as int, factor as int, ox as int, oy as int, dy as nat),
            s <= 255 * (dy * factor),
        decreases factor - dy,
    {
        proof {
            lemma_row_in_plane(
                src@.len() as int,
                src_w as int,
                src_h as int,
                factor as int,
                ox as int,
                oy as int,
                dy as int,
            );
            assert(dy * factor <= factor * factor && (dy + 1) * factor == dy * factor + factor)
                by (nonlinear_arith)
                requires
                    0 <= dy <= factor,
            ;
        }
        let row: usize = (oy * factor + dy) * src_w + ox * factor;
        s = s + sum_run(src, row, factor);
        dy += 1;
    }
    s
}

/// Shrinks a plane by an integer factor: each block of `factor` by `factor` bytes
/// becomes its mean. A factor of one or less leaves the plane as it is.
pub fn box_downsample(src: &[u8], src_w: usize, src_h: usize, factor: usize) -> (out: Vec<u8>)
    requires
        factor >= 2 ==> blocks_fit(src@.len() as int, src_w as int, src_h as int, factor as int),
    ensures
        factor < 2 ==> out@ == src@,
        factor >= 2 ==> is_shrunk(out@, src@, src_w as int, src_h as int, factor as int),
{
    if factor < 2 {
        return copy_bytes(src);
    }
    let out_w: usize = src_w / factor;
    let out_h: usize = src_h / factor;
    let mut out: Vec<u8> = Vec::new();
    let mut oy: usize = 0;
    assert(out@.len() == 0 * out_w);
    while oy < out_h
        invariant
            factor >= 2,
            oy <= out_h,
            out_w == src_w as int / factor as int,
            out_h == src_h as int / factor as int,
            blocks_fit(src@.len() as int, src_w as int, src_h as int, factor as int),
            out@.len() == oy * out_w,
            forall|x: int, y: int|
                0 <= x < out_w && 0 <= y < oy ==> out@[y * out_w + x] == #[trigger] block_mean(
                    src@,
                    src_w as int,
                    factor as int,
                    x,
                    y,
                ),
        decreases out_h - oy,
    {
        let mut ox: usize = 0;
        while ox < out_w
            invariant
                factor >= 2,
                oy < out_h,
                ox <= out_w,
                out_w == src_w as int / factor as int,
                out_h == src_h as int / factor as int,
                blocks_fit(src@.len() as int, src_w as int, src_h as int, factor as int),
                out@.len() == oy * out_w + ox,
                forall|x: int, y: int|
                    0 <= x < out_w && 0 <= y < oy ==> out@[y * out_w + x] == #[trigger] block_mean(
                        src@,
                        src_w as int,
                        factor as int,
                        x,
                        y,
                    ),
                forall|x: int|
                    0 <= x < ox ==> out@[oy * out_w + x] == #[trigger] block_mean(
                        src@,
                        src_w as int,
                        factor as int,
                        x,
                        oy as int,
                    ),
            decreases out_w - ox,
        {
            let s: u128 = sum_block(src, src_w, factor, ox, oy, src_h);
            proof {
                lemma_row_in_plane(
                    src@.len() as int,
                    src_w as int,
                    src_h as int,
                    factor as int,
                    ox as int,
                    oy as int,
                    0,
                );
                assert(src@.len() <= usize::MAX) by {
                    let n: usize = src.len();
                }
            }
            let area: u128 = factor as u128 * factor as u128;
            assert(factor * factor > 0) by (nonlinear_arith)
                requires
                    factor >= 2,
            ;
            assert(s / area <= 255) by (nonlinear_arith)
                requires
                    s <= 255 * area,
                    area > 0,
            ;
            let ghost before = out@;
            out.push((s / area) as u8);
            proof {
                assert forall|x: int, y: int|
                    0 <= x < out_w && 0 <= y < oy implies out@[y * out_w + x]
                    == #[trigger] block_mean(src@, src_w as int, factor as int, x, y) by {
                    assert(y * out_w + x < oy * out_w) by (nonlinear_arith)
                        requires
                            0 <= x < out_w,
                            0 <= y < oy,
                    ;
                    assert(y * out_w + x >= 0) by (nonlinear_arith)
                        requires
                            0 <= x < out_w,
                            0 <= y,
                    ;
                    assert(out@[y * out_w + x] == before[y * out_w + x]);
                }
            }
            ox += 1;
        }
        proof {
            assert((oy + 1) * out_w == oy * out_w + out_w) by (nonlinear_arith);
            assert forall|x: int, y: int|
                0 <= x < out_w && 0 <= y < oy + 1 implies out@[y * out_w + x]
                == #[trigger] block_mean(src@, src_w as int, factor as int, x, y) by {
                if y == oy {
                }
            }
        }
        oy += 1;
    }
    assert(out_h * out_w == out_w * out_h) by (nonlinear_arith);
    out
}

/// A copy of `src`.
fn copy_bytes(src: &[u8]) -> (out: Vec<u8>)
    ensures
        out@ == src@,
{
    let mut out: Vec<u8> = Vec::new();
    let mut i: usize = 0;
    while i < src.len()
        invariant
            i <= src@.len(),
            out@ == src@.take(i as int),
        decreases src@.len() - i,
    {
        out.push(src[i]);
        assert(src@.take(i + 1) == src@.take(i as int).push(src@[i as int]));
        i += 1;
    }
    assert(src@.take(src@.len() as int) == src@);
    out
}

// ───────────────────── fitting a picture into an adapter ─────────────────────

/// The planes of a planar 4:2:0 picture that is `width` by `height`.
pub struct PreparedPlanes {
    pub y: Vec<u8>,
    pub u: Vec<u8>,
    pub v: Vec<u8>,
    pub width: u32,
    pub height: u32,
    /// What the user is to be told.
    pub notice: Option<String>,
}

/// The longer of two sides.
pub open spec fn longest(w: int, h: int) -> int {
    if w > h {
        w
    } else {
        h
    }
}

/// The smallest integer factor, two at least, that brings the longer side within
/// `max_dim`.
pub open spec fn shrink_factor(w: int, h: int, max_dim: int) -> int {
    let c = (longest(w, h) + max_dim - 1) / max_dim;
    if c < 2 {
        2
    } else {
        c
    }
}

/// A side after shrinking: rounded down to an even number, so that the chroma
/// planes are half as long.
pub open spec fn shrunk_side(side: int, factor: int) -> int {
    side / factor - (side / factor) % 2
}

/// `src` shrunk to `w` by `h`: the means of its blocks, row by row, as far as the
/// picture goes.
pub open spec fn is_fitted(
    out: Seq<u8>,
    src: Seq<u8>,
    src_w: int,
    factor: int,
    w: int,
    h: int,
) -> bool {
    &&& out.len() == w * h
    &&& forall|ox: int, oy: int|
        0 <= ox < w && 0 <= oy < h ==> out[oy * w + ox] == #[trigger] block_mean(
            src,
            src_w,
            factor,
            ox,
            oy,
        )
}

/// Shrinks a plane by `factor`, and leaves out what is beyond `w` by `h`.
fn fit_plane(src: &[u8], src_w: usize, src_h: usize, factor: usize, w: usize, h: usize) -> (out: Vec<
    u8,
>)
    requires
        factor >= 2,
        blocks_fit(src@.len() as int, src_w as int, src_h as int, factor as int),
        w <= src_w as int / factor as int,
        h <= src_h as int / factor as int,
    ensures
        is_fitted(out@, src@, src_w as int, factor as int, w as int, h as int),
{
    let shrunk = box_downsample(src, src_w, src_h, factor);
    let row: usize = src_w / factor;
    let ghost rows = src_h as int / factor as int;
    assert(shrunk@.len() <= usize::MAX) by {
        let n: usize = shrunk.len();
    }
    let mut out: Vec<u8> = Vec::new();
    let mut oy: usize = 0;
    assert(out@.len() == 0 * w);
    while oy < h
        invariant
            oy <= h <= rows,
            w <= row,
            row == src_w as int / factor as int,
            rows == src_h as int / factor as int,
            shrunk@.len() <= usize::MAX,
            is_shrunk(shrunk@, src@, src_w as int, src_h as int, factor as int),
            out@.len() == oy * w,
            forall|x: int, y: int|
                0 <= x < w && 0 <= y < oy ==> out@[y * w + x] == #[trigger] block_mean(
                    src@,
                    src_w as int,
                    factor as int,
                    x,
                    y,
                ),
        decreases h - oy,
    {
        let mut ox: usize = 0;
        while ox < w
            invariant
                oy < h <= rows,
                ox <= w <= row,
                row == src_w as int / factor as int,
                rows == src_h as int / factor as int,
                shrunk@.len() <= usize::MAX,
                is_shrunk(shrunk@, src@, src_w as int, src_h as int, factor as int),
                out@.len() == oy * w + ox,
                forall|x: int, y: int|
                    0 <= x < w && 0 <= y < oy ==> out@[y * w + x] == #[trigger] block_mean(
                        src@,
                        src_w as int,
                        factor as int,
                        x,
                        y,
                    ),
                forall|x: int|
                    0 <= x < ox ==> out@[oy * w + x] == #[trigger] block_mean(
                        src@,
                        src_w as int,
                        factor as int,
                        x,
                        oy as int,
                    ),
            decreases w - ox,
        {
            assert(0 <= oy * row && oy * row + ox < row * rows) by (nonlinear_arith)
                requires
                    0 <= oy < rows,
                    0 <= ox < row,
            ;
            let ghost before = out@;
            assert(block_mean(src@, src_w as int, factor as int, ox as int, oy as int)
                == shrunk@[oy * row + ox]);
            out.push(shrunk[oy * row + ox]);
            proof {
                assert forall|x: int, y: int|
                    0 <= x < w && 0 <= y < oy implies out@[y * w + x] == #[trigger] block_mean(
                    src@,
                    src_w as int,
                    factor as int,
                    x,
                    y,
                ) by {
                    assert(0 <= y * w + x < oy * w) by (nonlinear_arith)
                        requires
                            0 <= x < w,
                            0 <= y < oy,
                    ;
                    assert(out@[y * w + x] == before[y * w + x]);
                }
            }
            ox += 1;
        }
        proof {
            assert((oy + 1) * w == oy * w + w) by (nonlinear_arith);
            assert forall|x: int, y: int|
                0 <= x < w && 0 <= y < oy + 1 implies out@[y * w + x] == #[trigger] block_mean(
                src@,
                src_w as int,
                factor as int,
                x,
                y,
            ) by {
                if y == oy {
                }
            }
        }
        oy += 1;
    }
    assert(h * w == w * h) by (nonlinear_arith);
    out
}

/// Whether the planes hold every block that shrinking by `factor` reads.
pub open spec fn planes_fit(
    y: Seq<u8>,
    u: Seq<u8>,
    v: Seq<u8>,
    w: int,
    h: int,
    factor: int,
) -> bool {
    &&& blocks_fit(y.len() as int, w, h, factor)
    &&& blocks_fit(u.len() as int, w / 2, h / 2, factor)
    &&& blocks_fit(v.len() as int, w / 2, h / 2, factor)
}

/// `w` by `h`, in the notice.
pub open spec fn dims_text(w: int, h: int) -> Seq<char> {
    decimal(w as nat) + "×"@ + decimal(h as nat)
}

/// The notice that a picture is shrunk.
pub open spec fn shrink_notice(w: int, h: int, max_dim: int, new_w: int, new_h: int) -> Seq<char> {
    "oxideplay: source "@ + dims_text(w, h) + " exceeds GPU max texture dim "@ + decimal(
        max_dim as nat,
    ) + "; downscaling to "@ + dims_text(new_w, new_h)
}

/// The notice that a picture is shrunk.
fn shrink_notice_text(w: u32, h: u32, max_dim: u32, new_w: u32, new_h: u32) -> (s: String)
    ensures
        s@ == shrink_notice(w as int, h as int, max_dim as int, new_w as int, new_h as int),
{
    let mut s = String::new();
    s.append("oxideplay: source ");
    push_decimal(&mut s, w as u64);
    s.append("×");
    push_decimal(&mut s, h as u64);
    s.append(" exceeds GPU max texture dim ");
    push_decimal(&mut s, max_dim as u64);
    s.append("; downscaling to ");
    push_decimal(&mut s, new_w as u64);
    s.append("×");
    push_decimal(&mut s, new_h as u64);
    assert(s@ == shrink_notice(w as int, h as int, max_dim as int, new_w as int, new_h as int));
    s
}

/// Fits a planar 4:2:0 picture of `w` by `h` into an adapter that takes `max_dim`
/// at most. A picture that fits stays as it is; a larger one is shrunk by an
/// integer factor to even sides, and one of which nothing would be left is dropped. The
/// user is told of shrinking once: `warned` remembers.
pub fn prepare_planes(
    y: Vec<u8>,
    u: Vec<u8>,
    v: Vec<u8>,
    w: u32,
    h: u32,
    max_dim: u32,
    warned: &mut bool,
) -> (p: PreparedPlanes)
    requires
        longest(w as int, h as int) > max_dim ==> {
            let f = shrink_factor(w as int, h as int, max_dim as int);
            &&& max_dim > 0
            &&& shrunk_side(w as int, f) > 0 && shrunk_side(h as int, f) > 0 ==> planes_fit(
                y@,
                u@,
                v@,
                w as int,
                h as int,
                f,
            )
        },
    ensures
        longest(w as int, h as int) <= max_dim ==> {
            &&& p.y@ == y@ && p.u@ == u@ && p.v@ == v@
            &&& p.width == w && p.height == h
            &&& p.notice is None && *final(warned) == *old(warned)
        },
        longest(w as int, h as int) > max_dim ==> {
            let f = shrink_factor(w as int, h as int, max_dim as int);
            let new_w = shrunk_side(w as int, f);
            let new_h = shrunk_side(h as int, f);
            if new_w == 0 || new_h == 0 {
                &&& p.y@.len() == 0 && p.u@.len() == 0 && p.v@.len() == 0
                &&& p.width == 0 && p.height == 0
                &&& p.notice is None && *final(warned) == *old(warned)
            } else {
                &&& is_fitted(p.y@, y@, w as int, f, new_w, new_h)
                &&& is_fitted(p.u@, u@, w as int / 2, f, new_w / 2, new_h / 2)
                &&& is_fitted(p.v@, v@, w as int / 2, f, new_w / 2, new_h / 2)
                &&& p.width == new_w && p.height == new_h
                &&& p.notice is Some <==> !*old(warned)
                &&& p.notice matches Some(s) ==> s@ == shrink_notice(
                    w as int,
                    h as int,
                    max_dim as int,
                    new_w,
                    new_h,
                )
                &&& *final(warned)
            }
        },
        p.width <= max_dim || p.width == 0,
        p.height <= max_dim || p.height == 0,
        longest(w as int, h as int) > max_dim ==> p.y@.len() == p.width * p.height && p.u@.len() == (
        p.width as int / 2) * (p.height as int / 2) && p.v@.len() == p.u@.len(),
{
    let long: u32 = if w > h { w } else { h };
    if long <= max_dim {
        return PreparedPlanes { y, u, v, width: w, height: h, notice: None };
    }
    let c: u64 = (long as u64 + max_dim as u64 - 1) / max_dim as u64;
    proof {
        vstd::arithmetic::div_mod::lemma_div_is_ordered_by_denominator(
            long as int + max_dim as int - 1,
            1,
            max_dim as int,
        );
        assert(c <= u32::MAX) by (nonlinear_arith)
            requires
                c == (long as int + max_dim as int - 1) / (max_dim as int),
                0 < max_dim < long <= u32::MAX,
        ;
    }
    let scale: u32 = if c < 2 { 2 } else { c as u32 };
    let new_w: u32 = w / scale - (w / scale) % 2;
    let new_h: u32 = h / scale - (h / scale) % 2;
    if new_w == 0 || new_h == 0 {
        return PreparedPlanes {
            y: Vec::new(),
            u: Vec::new(),
            v: Vec::new(),
            width: 0,
            height: 0,
            notice: None,
        };
    }
    let notice = if *warned {
        None
    } else {
        *warned = true;
        Some(shrink_notice_text(w, h, max_dim, new_w, new_h))
    };
    proof {
        law_shrunk_pictures_fit(w as int, h as int, max_dim as int);
        law_chroma_follows_luma(w as int, scale as int);
        law_chroma_follows_luma(h as int, scale as int);
    }
    let (f, half_w, half_h) = (scale as usize, (w / 2) as usize, (h / 2) as usize);
    let (u_w, u_h) = ((new_w / 2) as usize, (new_h / 2) as usize);
    PreparedPlanes {
        y: fit_plane(&y, w as usize, h as usize, f, new_w as usize, new_h as usize),
        u: fit_plane(&u, half_w, half_h, f, u_w, u_h),
        v: fit_plane(&v, half_w, half_h, f, u_w, u_h),
        width: new_w,
        height: new_h,
        notice,
    }
}

// ───────────────────── laws ─────────────────────

/// Shrinking by the chosen factor brings both sides within the limit, and no
/// smaller factor above one would.
pub proof fn law_shrunk_pictures_fit(w: int, h: int, max_dim: int)
    requires
        w >= 0,
        h >= 0,
        max_dim > 0,
        longest(w, h) > max_dim,
    ensures
        ({
            let f = shrink_factor(w, h, max_dim);
            &&& f >= 2
            &&& 0 <= shrunk_side(w, f) <= max_dim
            &&& 0 <= shrunk_side(h, f) <= max_dim
            &&& shrunk_side(w, f) % 2 == 0
            &&& shrunk_side(h, f) % 2 == 0
            &&& forall|g: int| 1 < g < f ==> #[trigger] (g * max_dim) < longest(w, h)
        }),
{
    let l = longest(w, h);
    let f = shrink_factor(w, h, max_dim);
    let c = (l + max_dim - 1) / max_dim;
    vstd::arithmetic::div_mod::lemma_fundamental_div_mod(l + max_dim - 1, max_dim);
    assert(l <= c * max_dim) by (nonlinear_arith)
        requires
            l + max_dim - 1 == max_dim * c + (l + max_dim - 1) % max_dim,
            (l + max_dim - 1) % max_dim < max_dim,
    ;
    assert(l <= f * max_dim) by (nonlinear_arith)
        requires
            l <= c * max_dim,
            f >= c,
            max_dim > 0,
    ;
    lemma_quotient_within(w, f, max_dim);
    lemma_quotient_within(h, f, max_dim);
    assert forall|g: int| 1 < g < f implies #[trigger] (g * max_dim) < l by {
        assert(g * max_dim < l) by (nonlinear_arith)
            requires
                g <= c - 1,
                l + max_dim - 1 == max_dim * c + (l + max_dim - 1) % max_dim,
                (l + max_dim - 1) % max_dim >= 0,
                max_dim > 0,
        ;
    }
}

proof fn lemma_quotient_within(side: int, f: int, max_dim: int)
    requires
        0 <= side <= f * max_dim,
        f >= 2,
    ensures
        0 <= side / f <= max_dim,
{
    vstd::arithmetic::div_mod::lemma_fundamental_div_mod(side, f);
    assert(0 <= side / f <= max_dim) by (nonlinear_arith)
        requires
            side == f * (side / f) + side % f,
            0 <= side % f < f,
            0 <= side <= f * max_dim,
            f >= 2,
    ;
}

/// The chroma planes of a shrunk picture are half as wide and half as high as the
/// picture.
pub proof fn law_chroma_follows_luma(side: int, factor: int)
    requires
        side >= 0,
        factor >= 2,
    ensures
        (side / 2) / factor == shrunk_side(side, factor) / 2,
{
    vstd::arithmetic::div_mod::lemma_div_denominator(side, 2, factor);
    vstd::arithmetic::div_mod::lemma_div_denominator(side, factor, 2);
    assert(2 * factor == factor * 2);
    assert((side / 2) / factor == (side / factor) / 2);
}

/// A plane that has one value everywhere keeps it when it is shrunk.
pub proof fn law_a_flat_plane_stays_flat(
    src: Seq<u8>,
    value: u8,
    src_w: int,
    src_h: int,
    factor: int,
    ox: int,
    oy: int,
)
    requires
        factor >= 2,
        src_w >= 0,
        src_h >= 0,
        blocks_fit(src.len() as int, src_w, src_h, factor),
        0 <= ox < src_w / factor,
        0 <= oy < src_h / factor,
        forall|i: int| 0 <= i < src.len() ==> src[i] == value,
    ensures
        block_mean(src, src_w, factor, ox, oy) == value,
{
    lemma_flat_block(src, value, src_w, src_h, factor, ox, oy, factor as nat);
    let area = factor * factor;
    assert(area > 0) by (nonlinear_arith)
        requires
            area == factor * factor,
            factor >= 2,
    ;
    assert(factor * (factor * value) == value * area) by (nonlinear_arith)
        requires
            area == factor * factor,
    ;
    vstd::arithmetic::div_mod::lemma_div_by_multiple(value as int, area);
}

proof fn lemma_flat_block(
    src: Seq<u8>,
    value: u8,
    src_w: int,
    src_h: int,
    factor: int,
    ox: int,
    oy: int,
    rows: nat,
)
    requires
        factor >= 2,
        src_w >= 0,
        src_h >= 0,
        rows <= factor,
        blocks_fit(src.len() as int, src_w, src_h, factor),
        0 <= ox < src_w / factor,
        0 <= oy < src_h / factor,
        forall|i: int| 0 <= i < src.len() ==> src[i] == value,
    ensures
        block_sum(src, src_w, factor, ox, oy, rows) == rows * (factor * value),
    decreases rows,
{
    if rows > 0 {
        lemma_flat_block(src, value, src_w, src_h, factor, ox, oy, (rows - 1) as nat);
        lemma_row_in_plane(src.len() as int, src_w, src_h, factor, ox, oy, rows - 1);
        lemma_flat_run(
            src,
            value,
            (oy * factor + rows - 1) * src_w + ox * factor,
            factor as nat,
        );
        assert(rows * (factor * value) == (rows - 1) * (factor * value) + factor * value)
            by (nonlinear_arith);
    } else {
        assert(rows * (factor * value) == 0) by (nonlinear_arith)
            requires
                rows == 0,
        ;
    }
}

proof fn lemma_flat_run(src: Seq<u8>, value: u8, start: int, n: nat)
    requires
        0 <= start,
        start + n <= src.len(),
        forall|i: int| 0 <= i < src.len() ==> src[i] == value,
    ensures
        run_sum(src, start, n) == n * value,
    decreases n,
{
    if n > 0 {
        lemma_flat_run(src, value, start, (n - 1) as nat);
        assert(n * value == (n - 1) * value + value) by (nonlinear_arith);
    } else {
        assert(n * value == 0) by (nonlinear_arith)
            requires
                n == 0,
        ;
    }
}

/// Every row of a plane that covers a picture lies inside the plane.
pub proof fn law_covered_rows_are_inside(len: int, stride: int, row_bytes: int, rows: int, row: int)
    requires
        covers(len, stride, row_bytes, rows),
        0 <= row < rows,
        row_bytes >= 0,
    ensures
        0 <= row * stride,
        row * stride + row_bytes <= len,
{
    assert(0 <= row * stride <= stride * (rows - 1)) by (nonlinear_arith)
        requires
            0 <= row <= rows - 1,
            stride >= row_bytes >= 0,
    ;
}

/// The longer side is one of the two, and no shorter than the other.
pub proof fn law_the_longest_side_is_a_side(w: int, h: int)
    ensures
        longest(w, h) >= w,
        longest(w, h) >= h,
        longest(w, h) == w || longest(w, h) == h,
{
}

/// A shrunk side is the longest even one that so many blocks make up: one more pair of
/// blocks would be more than there is.
pub proof fn law_a_shrunk_side_takes_what_it_can(side: int, factor: int)
    requires
        side >= 0,
        factor >= 1,
    ensures
        shrunk_side(side, factor) >= 0,
        shrunk_side(side, factor) % 2 == 0,
        shrunk_side(side, factor) * factor <= side < (shrunk_side(side, factor) + 2) * factor,
{
    let q = side / factor;
    let s = shrunk_side(side, factor);
    vstd::arithmetic::div_mod::lemma_fundamental_div_mod(side, factor);
    vstd::arithmetic::div_mod::lemma_div_pos_is_pos(side, factor);
    assert(s * factor <= side < (s + 2) * factor) by (nonlinear_arith)
        requires
            side == factor * q + side % factor,
            0 <= side % factor < factor,
            s == q || s == q - 1,
            factor >= 1,
    ;
}

/// A plane covers a picture exactly where every row of it lies inside, one below the other
/// without overlap.
pub proof fn law_a_plane_covers_what_lies_inside(len: int, stride: int, row_bytes: int, rows: int)
    requires
        row_bytes >= 0,
        rows > 0,
    ensures
        covers(len, stride, row_bytes, rows) <==> stride >= row_bytes && (forall|row: int|
            0 <= row < rows ==> (#[trigger] (row * stride)) + row_bytes <= len),
{
    if covers(len, stride, row_bytes, rows) {
        assert forall|row: int| 0 <= row < rows implies (#[trigger] (row * stride)) + row_bytes
            <= len by {
            law_covered_rows_are_inside(len, stride, row_bytes, rows, row);
        }
    }
    assert((rows - 1) * stride == stride * (rows - 1)) by (nonlinear_arith);
}

/// A picture that is drawn as it lies is planar 4:2:0 of even sides, and all of it is
/// there: every row of the luma plane, and of each chroma plane half as many of half the
/// width.
pub proof fn law_a_drawable_picture_is_all_there(frame: ArenaFrame, row: int)
    requires
        frame.is_drawable(),
    ensures
        frame.pixel_format == PixelFormat::Yuv420P,
        frame.width > 0 && frame.width % 2 == 0,
        frame.height > 0 && frame.height % 2 == 0,
        frame.planes@.len() >= 3,
        0 <= row < frame.height ==> row * frame.planes@[0].stride + frame.width
            <= frame.planes@[0].data@.len(),
        0 <= row < frame.height / 2 ==> row * frame.planes@[1].stride + frame.width / 2
            <= frame.planes@[1].data@.len(),
        0 <= row < frame.height / 2 ==> row * frame.planes@[2].stride + frame.width / 2
            <= frame.planes@[2].data@.len(),
        frame.planes@[0].stride >= frame.width,
        frame.planes@[1].stride >= frame.width / 2,
        frame.planes@[2].stride >= frame.width / 2,
{
    let (w, h) = (frame.width as int, frame.height as int);
    let (y, u, v) = (frame.planes@[0], frame.planes@[1], frame.planes@[2]);
    if 0 <= row < h {
        law_covered_rows_are_inside(y.data@.len() as int, y.stride as int, w, h, row);
    }
    if 0 <= row < h / 2 {
        law_covered_rows_are_inside(u.data@.len() as int, u.stride as int, w / 2, h / 2, row);
        law_covered_rows_are_inside(v.data@.len() as int, v.stride as int, w / 2, h / 2, row);
    }
}

/// Every byte of a block counts alike in its sum, and no other byte counts: changing one
/// byte by so much changes the sum by as much where the byte is in the block, and not at
/// all where it is not. A block of nothing sums to nothing.
pub proof fn law_every_byte_of_a_block_counts(
    src: Seq<u8>,
    src_w: int,
    src_h: int,
    factor: int,
    ox: int,
    oy: int,
    x: int,
    y: int,
    value: u8,
)
    requires
        factor >= 2,
        src_w >= 0,
        src_h >= 0,
        blocks_fit(src.len() as int, src_w, src_h, factor),
        0 <= ox < src_w / factor,
        0 <= oy < src_h / factor,
        0 <= x < src_w,
        0 <= y,
        y * src_w + x < src.len(),
    ensures
        ({
            let at = y * src_w + x;
            let inside = ox * factor <= x < (ox + 1) * factor && oy * factor <= y < (oy + 1)
                * factor;
            block_sum(src.update(at, value), src_w, factor, ox, oy, factor as nat) == block_sum(
                src,
                src_w,
                factor,
                ox,
                oy,
                factor as nat,
            ) + (if inside {
                value - src[at]
            } else {
                0
            })
        }),
        (forall|i: int| 0 <= i < src.len() ==> src[i] == 0) ==> block_sum(
            src,
            src_w,
            factor,
            ox,
            oy,
            factor as nat,
        ) == 0,
{
    if forall|i: int| 0 <= i < src.len() ==> src[i] == 0 {
        lemma_flat_block(src, 0, src_w, src_h, factor, ox, oy, factor as nat);
        assert(factor * (factor * 0) == 0) by (nonlinear_arith);
    }
    assert(y * src_w >= 0) by (nonlinear_arith)
        requires
            y >= 0,
            src_w >= 0,
    ;
    assert((ox + 1) * factor == ox * factor + factor) by (nonlinear_arith);
    assert((oy + 1) * factor == oy * factor + factor) by (nonlinear_arith);
    lemma_byte_in_rows(src, src_w, src_h, factor, ox, oy, x, y, value, factor as nat);
}

proof fn lemma_byte_in_rows(
    src: Seq<u8>,
    src_w: int,
    src_h: int,
    factor: int,
    ox: int,
    oy: int,
    x: int,
    y: int,
    value: u8,
    rows: nat,
)
    requires
        factor >= 2,
        src_w >= 0,
        src_h >= 0,
        rows <= factor,
        blocks_fit(src.len() as int, src_w, src_h, factor),
        0 <= ox < src_w / factor,
        0 <= oy < src_h / factor,
        0 <= x < src_w,
        0 <= y,
        0 <= y * src_w,
        y * src_w + x < src.len(),
    ensures
        ({
            let at = y * src_w + x;
            let inside = ox * factor <= x < ox * factor + factor && oy * factor <= y < oy * factor
                + rows;
            block_sum(src.update(at, value), src_w, factor, ox, oy, rows) == block_sum(
                src,
                src_w,
                factor,
                ox,
                oy,
                rows,
            ) + (if inside {
                value - src[at]
            } else {
                0
            })
        }),
    decreases rows,
{
    if rows > 0 {
        lemma_byte_in_rows(
            src,
            src_w,
            src_h,
            factor,
            ox,
            oy,
            x,
            y,
            value,
            (rows - 1) as nat,
        );
        let row = oy * factor + rows - 1;
        lemma_row_in_plane(src.len() as int, src_w, src_h, factor, ox, oy, rows - 1);
        let start = row * src_w + ox * factor;
        let at = y * src_w + x;
        lemma_byte_in_run(src, start, factor as nat, at, value);
        assert(start <= at < start + factor <==> y == row && ox * factor <= x < ox * factor
            + factor) by {
            if y < row {
                assert(at < start) by (nonlinear_arith)
                    requires
                        y + 1 <= row,
                        x < src_w,
                        at == y * src_w + x,
                        start == row * src_w + ox * factor,
                        0 <= ox * factor,
                        src_w >= 0,
                ;
            } else if y > row {
                assert(at >= start + factor) by (nonlinear_arith)
                    requires
                        y >= row + 1,
                        x >= 0,
                        at == y * src_w + x,
                        start == row * src_w + ox * factor,
                        ox * factor + factor <= src_w,
                        src_w >= 0,
                ;
            }
        }
    }
}

proof fn lemma_byte_in_run(src: Seq<u8>, start: int, n: nat, at: int, value: u8)
    requires
        0 <= start,
        start + n <= src.len(),
        0 <= at < src.len(),
    ensures
        run_sum(src.update(at, value), start, n) == run_sum(src, start, n) + (if start <= at < start
            + n {
            value - src[at]
        } else {
            0
        }),
    decreases n,
{
    if n > 0 {
        lemma_byte_in_run(src, start, (n - 1) as nat, at, value);
    }
}

/// The mean of a block is its sum by its bytes, rounded down: so many times the mean is no
/// more than the sum, and so many times one more would be.
pub proof fn law_a_mean_shares_the_sum_out(
    src: Seq<u8>,
    src_w: int,
    factor: int,
    ox: int,
    oy: int,
)
    requires
        factor >= 1,
    ensures
        ({
            let sum = block_sum(src, src_w, factor, ox, oy, factor as nat);
            let mean = block_mean(src, src_w, factor, ox, oy);
            mean * (factor * factor) <= sum < (mean + 1) * (factor * factor)
        }),
{
    let area = factor * factor;
    let sum = block_sum(src, src_w, factor, ox, oy, factor as nat);
    assert(area > 0) by (nonlinear_arith)
        requires
            area == factor * factor,
            factor >= 1,
    ;
    vstd::arithmetic::div_mod::lemma_fundamental_div_mod(sum, area);
    let q = sum / area;
    assert(q * area <= sum < (q + 1) * area) by (nonlinear_arith)
        requires
            sum == area * q + sum % area,
            0 <= sum % area < area,
    ;
}

/// A shrunk plane keeps the picture the way round that it was: where a block has one
/// colour, the byte that stands for it, in the same place among the others, has that colour.
/// There is one byte for every block, and for every block within the sides that are kept.
pub proof fn law_a_shrunk_plane_shows_the_same_picture(
    out: Seq<u8>,
    src: Seq<u8>,
    src_w: int,
    src_h: int,
    factor: int,
    w: int,
    h: int,
    ox: int,
    oy: int,
    value: u8,
)
    requires
        factor >= 2,
        src_w >= 0,
        src_h >= 0,
        blocks_fit(src.len() as int, src_w, src_h, factor),
        0 <= ox < w <= src_w / factor,
        0 <= oy < h <= src_h / factor,
        is_fitted(out, src, src_w, factor, w, h) || w == src_w / factor && h == src_h / factor
            && is_shrunk(out, src, src_w, src_h, factor),
        forall|dx: int, dy: int|
            0 <= dx < factor && 0 <= dy < factor ==> #[trigger] src[(oy * factor + dy) * src_w + ox
                * factor + dx] == value,
    ensures
        out.len() == w * h,
        out[oy * w + ox] == value,
{
    assert(block_mean(src, src_w, factor, ox, oy) == out[oy * w + ox]);
    lemma_one_colour(src, value, src_w, factor, ox, oy, factor as nat);
    let area = factor * factor;
    assert(area > 0) by (nonlinear_arith)
        requires
            area == factor * factor,
            factor >= 2,
    ;
    assert(factor * (factor * value) == value * area) by (nonlinear_arith)
        requires
            area == factor * factor,
    ;
    vstd::arithmetic::div_mod::lemma_div_by_multiple(value as int, area);
}

proof fn lemma_one_colour(
    src: Seq<u8>,
    value: u8,
    src_w: int,
    factor: int,
    ox: int,
    oy: int,
    rows: nat,
)
    requires
        factor >= 2,
        rows <= factor,
        forall|dx: int, dy: int|
            0 <= dx < factor && 0 <= dy < factor ==> #[trigger] src[(oy * factor + dy) * src_w + ox
                * factor + dx] == value,
    ensures
        block_sum(src, src_w, factor, ox, oy, rows) == rows * (factor * value),
    decreases rows,
{
    if rows > 0 {
        lemma_one_colour(src, value, src_w, factor, ox, oy, (rows - 1) as nat);
        let start = (oy * factor + rows - 1) * src_w + ox * factor;
        let dy = rows - 1;
        assert forall|dx: int| 0 <= dx < factor implies #[trigger] src[start + dx] == value by {
            assert(src[(oy * factor + dy) * src_w + ox * factor + dx] == value);
        }
        lemma_one_coloured_run(src, value, start, factor as nat);
        assert(rows * (factor * value) == (rows - 1) * (factor * value) + factor * value)
            by (nonlinear_arith);
    } else {
        assert(rows * (factor * value) == 0) by (nonlinear_arith)
            requires
                rows == 0,
        ;
    }
}

proof fn lemma_one_coloured_run(src: Seq<u8>, value: u8, start: int, n: nat)
    requires
        forall|dx: int| 0 <= dx < n ==> #[trigger] src[start + dx] == value,
    ensures
        run_sum(src, start, n) == n * value,
    decreases n,
{
    if n > 0 {
        lemma_one_coloured_run(src, value, start, (n - 1) as nat);
        assert(src[start + (n - 1)] == value);
        assert(n * value == (n - 1) * value + value) by (nonlinear_arith);
    } else {
        assert(n * value == 0) by (nonlinear_arith)
            requires
                n == 0,
        ;
    }
}

/// A picture of which all is there, planar 4:2:0 of even sides and at strides that an
/// adapter can take, is drawn as it lies.
pub proof fn law_a_picture_that_is_all_there_is_drawable(frame: ArenaFrame)
    requires
        frame.pixel_format == PixelFormat::Yuv420P,
        frame.width > 0,
        frame.width % 2 == 0,
        frame.height > 0,
        frame.height % 2 == 0,
        frame.planes@.len() >= 3,
        forall|i: int| 0 <= i < 3 ==> (#[trigger] frame.planes@[i]).stride <= 0xffff_ffff,
        frame.planes@[0].stride >= frame.width,
        frame.planes@[1].stride >= frame.width / 2,
        frame.planes@[2].stride >= frame.width / 2,
        (frame.height - 1) * frame.planes@[0].stride + frame.width
            <= frame.planes@[0].data@.len(),
        (frame.height / 2 - 1) * frame.planes@[1].stride + frame.width / 2
            <= frame.planes@[1].data@.len(),
        (frame.height / 2 - 1) * frame.planes@[2].stride + frame.width / 2
            <= frame.planes@[2].data@.len(),
    ensures
        frame.is_drawable(),
{
    let h = frame.height as int;
    let (a, b, c) = (
        frame.planes@[0].stride as int,
        frame.planes@[1].stride as int,
        frame.planes@[2].stride as int,
    );
    assert((h - 1) * a == a * (h - 1)) by (nonlinear_arith);
    assert((h / 2 - 1) * b == b * (h / 2 - 1)) by (nonlinear_arith);
    assert((h / 2 - 1) * c == c * (h / 2 - 1)) by (nonlinear_arith);
}

/// A plane that holds its picture can be shrunk by any factor: every block lies inside.
pub proof fn law_a_whole_plane_can_be_shrunk(len: int, src_w: int, src_h: int, factor: int)
    requires
        src_w >= 0,
        src_h >= 0,
        factor >= 1,
        len >= src_w * src_h,
    ensures
        blocks_fit(len, src_w, src_h, factor),
{
    if src_w / factor > 0 && src_h / factor > 0 {
        let (a, b) = (src_w / factor, src_h / factor);
        vstd::arithmetic::div_mod::lemma_fundamental_div_mod(src_w, factor);
        vstd::arithmetic::div_mod::lemma_fundamental_div_mod(src_h, factor);
        assert(a * factor <= src_w && b * factor <= src_h) by (nonlinear_arith)
            requires
                src_w == factor * a + src_w % factor,
                src_h == factor * b + src_h % factor,
                src_w % factor >= 0,
                src_h % factor >= 0,
        ;
        assert((b * factor - 1) * src_w + a * factor <= src_w * src_h) by (nonlinear_arith)
            requires
                a * factor <= src_w,
                b * factor <= src_h,
                src_w >= 0,
        ;
    }
}

} // verus!
