//! The window's renderer: which frames it can take, what it uploads, and where on
//! the surface the picture goes.

use vstd::prelude::*;

use crate::bridge::{BridgePool, VdpauStep};
use crate::media::{CodecParameters, PixelFormat};
use crate::planes::ArenaYuv420pView;
use crate::text::{chars_of, lower_chars, push_decimal, same, string_of};
#[allow(unused_imports)]
use crate::text::{decimal, lower};

verus! {

// ───────────────────── the renderer's state ─────────────────────

/// `x` held between one and `max`.
pub open spec fn held(x: u32, max: u32) -> u32 {
    if x < 1 {
        1
    } else if x > max {
        max
    } else {
        x
    }
}

/// `x` held between one and `max`.
fn hold(x: u32, max: u32) -> (r: u32)
    requires
        max >= 1,
    ensures
        r == held(x, max),
        1 <= r <= max,
{
    if x < 1 {
        1
    } else if x > max {
        max
    } else {
        x
    }
}

/// What the renderer knows of its surface and of the source.
pub struct VideoRenderer {
    /// The longest side that the adapter takes.
    pub max_texture_dim: u32,
    pub surface_width: u32,
    pub surface_height: u32,
    /// The picture size for which there are textures.
    pub dims: Option<(u32, u32)>,
    /// Whether the user has been told that pictures are shrunk.
    pub warned_downscale: bool,
    pub src_format: PixelFormat,
    /// The source's width, or zero while it is not known.
    pub src_width: u32,
    /// The source's height, or zero while it is not known.
    pub src_height: u32,
    /// The adapter and the surface, as they were at the start.
    pub adapter_summary: String,
    /// The bridges that pictures in video memory are drawn through.
    pub bridges: BridgePool,
}

/// What to upload before a frame is drawn.
#[derive(Clone, Copy, Debug, PartialEq, Eq, Structural)]
pub struct UploadPlan {
    /// Whether textures of this size have to be made first.
    pub new_textures: bool,
    /// The size of the luma plane; the chroma planes are half as wide and half as
    /// high.
    pub width: u32,
    pub height: u32,
    /// How far apart the rows of each plane are, in bytes.
    pub y_row: u32,
    pub u_row: u32,
    pub v_row: u32,
    /// The size of the source, whose shape the picture keeps on the surface.
    pub content_width: u32,
    pub content_height: u32,
}

/// The first plane of a frame in ordinary memory, as far as its size tells the
/// picture's size.
#[derive(Clone, Copy, Debug, PartialEq, Eq, Structural)]
pub struct FrameShape {
    pub planes: usize,
    pub stride: usize,
    pub len: usize,
}

impl VideoRenderer {
    /// Whether the surface is within the adapter's limits.
    pub open spec fn well_formed(self) -> bool {
        &&& 1 <= self.surface_width <= self.max_texture_dim
        &&& 1 <= self.surface_height <= self.max_texture_dim
    }

    /// A renderer for a window of `width` by `height`, on an adapter that takes
    /// sides of `max_texture_dim` at most and is described by `adapter_summary`. The
    /// source is not known yet.
    pub fn new(width: u32, height: u32, max_texture_dim: u32, adapter_summary: String) -> (r: Self)
        requires
            max_texture_dim >= 1,
        ensures
            r.well_formed(),
            r == (VideoRenderer {
                max_texture_dim,
                surface_width: held(width, max_texture_dim),
                surface_height: held(height, max_texture_dim),
                dims: None,
                warned_downscale: false,
                src_format: PixelFormat::Yuv420P,
                src_width: 0,
                src_height: 0,
                adapter_summary,
                bridges: BridgePool {
                    slots: 0,
                    width: 0,
                    height: 0,
                    disabled: false,
                    busy_drops: 0,
                },
            }),
    {
        VideoRenderer {
            max_texture_dim,
            surface_width: hold(width, max_texture_dim),
            surface_height: hold(height, max_texture_dim),
            dims: None,
            warned_downscale: false,
            src_format: PixelFormat::Yuv420P,
            src_width: 0,
            src_height: 0,
            adapter_summary,
            bridges: BridgePool::new(),
        }
    }

    /// The adapter and the surface, as they were at the start.
    pub fn adapter_summary(&self) -> (s: &str)
        ensures
            s@ == self.adapter_summary@,
    {
        self.adapter_summary.as_str()
    }

    /// Takes over what the stream says of its pictures; what it leaves open, or
    /// gives as zero, stays as it was.
    pub fn set_source_video_params(&mut self, params: &CodecParameters)
        ensures
            *final(self) == (VideoRenderer {
                src_format: match params.pixel_format {
                    Some(f) => f,
                    None => old(self).src_format,
                },
                src_width: match params.width {
                    Some(w) => if w > 0 {
                        w
                    } else {
                        old(self).src_width
                    },
                    None => old(self).src_width,
                },
                src_height: match params.height {
                    Some(h) => if h > 0 {
                        h
                    } else {
                        old(self).src_height
                    },
                    None => old(self).src_height,
                },
                ..*old(self)
            }),
    {
        if let Some(f) = params.pixel_format {
            self.src_format = f;
        }
        if let Some(w) = params.width {
            if w > 0 {
                self.src_width = w;
            }
        }
        if let Some(h) = params.height {
            if h > 0 {
                self.src_height = h;
            }
        }
    }

    /// Takes note that the window is now `width` by `height`.
    pub fn resize(&mut self, width: u32, height: u32)
        requires
            old(self).well_formed(),
        ensures
            final(self).well_formed(),
            *final(self) == (VideoRenderer {
                surface_width: held(width, old(self).max_texture_dim),
                surface_height: held(height, old(self).max_texture_dim),
                ..*old(self)
            }),
    {
        self.surface_width = hold(width, self.max_texture_dim);
        self.surface_height = hold(height, self.max_texture_dim);
    }

    /// Makes sure that there are textures for pictures of `width` by `height`.
    /// `true` comes back when they have to be made.
    fn ensure_yuv_textures(&mut self, width: u32, height: u32) -> (made: bool)
        ensures
            made == (old(self).dims != Some((width, height))),
            *final(self) == (VideoRenderer { dims: Some((width, height)), ..*old(self) }),
    {
        let known = match self.dims {
            Some((w, h)) => w == width && h == height,
            None => false,
        };
        self.dims = Some((width, height));
        !known
    }

    /// Whether a picture in an arena, of `width` by `height`, can be drawn as it
    /// lies: it is within the adapter's limits and what the source announced.
    pub open spec fn takes_arena(self, width: u32, height: u32) -> bool {
        &&& width <= self.max_texture_dim
        &&& height <= self.max_texture_dim
        &&& self.src_format == PixelFormat::Yuv420P
        &&& self.src_width == 0 || self.src_width == width
        &&& self.src_height == 0 || self.src_height == height
    }

    /// What to upload for a picture in an arena; `None` where it cannot be drawn
    /// as it lies, and the caller falls back to a copy.
    pub fn render_arena(&mut self, view: &ArenaYuv420pView) -> (plan: Option<UploadPlan>)
        ensures
            plan is Some <==> old(self).takes_arena(view.width, view.height),
            plan is None ==> *final(self) == *old(self),
            plan matches Some(p) ==> {
                &&& *final(self) == (VideoRenderer {
                    src_width: view.width,
                    src_height: view.height,
                    dims: Some((view.width, view.height)),
                    ..*old(self)
                })
                &&& p == (UploadPlan {
                    new_textures: old(self).dims != Some((view.width, view.height)),
                    width: view.width,
                    height: view.height,
                    y_row: view.y_stride,
                    u_row: view.u_stride,
                    v_row: view.v_stride,
                    content_width: view.width,
                    content_height: view.height,
                })
            },
    {
        if view.width > self.max_texture_dim || view.height > self.max_texture_dim {
            return None;
        }
        if self.src_format != PixelFormat::Yuv420P || (self.src_width != 0 && self.src_width
            != view.width) || (self.src_height != 0 && self.src_height != view.height) {
            return None;
        }
        self.src_width = view.width;
        self.src_height = view.height;
        let new_textures = self.ensure_yuv_textures(view.width, view.height);
        Some(
            UploadPlan {
                new_textures,
                width: view.width,
                height: view.height,
                y_row: view.y_stride,
                u_row: view.u_stride,
                v_row: view.v_stride,
                content_width: view.width,
                content_height: view.height,
            },
        )
    }

    /// The size that a frame's first plane tells, where the source has not told
    /// it: planar 4:2:0 rows without padding. A side counts modulo two to the
    /// thirty-second.
    pub open spec fn inferred_size(self, shape: FrameShape) -> Option<(u32, u32)> {
        let w = shape.stride as int % 0x1_0000_0000;
        let h = (shape.len as int / shape.stride as int) % 0x1_0000_0000;
        if (self.src_width == 0 || self.src_height == 0) && self.src_format == PixelFormat::Yuv420P
            && shape.planes >= 3 && shape.stride > 0 && w > 0 && h > 0 {
            Some((w as u32, h as u32))
        } else {
            None
        }
    }

    /// Learns the source's size from a frame, where it is not known. A notice for
    /// the user comes back when something was learnt.
    pub fn infer_size(&mut self, shape: FrameShape) -> (notice: Option<String>)
        ensures
            notice is Some <==> old(self).inferred_size(shape) is Some,
            *final(self) == (match old(self).inferred_size(shape) {
                Some((w, h)) => VideoRenderer { src_width: w, src_height: h, ..*old(self) },
                None => *old(self),
            }),
            notice matches Some(s) ==> s@ == "oxideplay: inferred dynamic video size "@ + decimal(
                final(self).src_width as nat,
            ) + "x"@ + decimal(final(self).src_height as nat) + " from first frame"@,
    {
        if (self.src_width != 0 && self.src_height != 0) || self.src_format
            != PixelFormat::Yuv420P || shape.planes < 3 || shape.stride == 0 {
            return None;
        }
        let w: u32 = (shape.stride as u64 % 0x1_0000_0000) as u32;
        let h: u32 = ((shape.len / shape.stride) as u64 % 0x1_0000_0000) as u32;
        if w == 0 || h == 0 {
            return None;
        }
        self.src_width = w;
        self.src_height = h;
        let mut s = String::new();
        s.append("oxideplay: inferred dynamic video size ");
        push_decimal(&mut s, w as u64);
        s.append("x");
        push_decimal(&mut s, h as u64);
        s.append(" from first frame");
        Some(s)
    }

    /// Whether frames can be drawn: the source's size is known.
    pub fn can_render(&self) -> (b: bool)
        ensures
            b == (self.src_width > 0 && self.src_height > 0),
    {
        self.src_width != 0 && self.src_height != 0
    }

    /// After a frame whose planes have been prepared at `width` by `height`, and what to
    /// upload for it.
    pub open spec fn uploaded(self, width: u32, height: u32) -> (VideoRenderer, Option<UploadPlan>) {
        if width == 0 || height == 0 {
            (self, None)
        } else {
            (
                VideoRenderer { dims: Some((width, height)), ..self },
                Some(
                    UploadPlan {
                        new_textures: self.dims != Some((width, height)),
                        width,
                        height,
                        y_row: width,
                        u_row: width / 2,
                        v_row: width / 2,
                        content_width: self.src_width,
                        content_height: self.src_height,
                    },
                ),
            )
        }
    }

    /// What to upload for a frame whose planes have been prepared at `width` by
    /// `height`, without padding; `None` where nothing is left of it.
    pub fn render(&mut self, width: u32, height: u32) -> (plan: Option<UploadPlan>)
        ensures
            plan is Some <==> width > 0 && height > 0,
            plan is None ==> *final(self) == *old(self),
            plan matches Some(p) ==> {
                &&& *final(self) == (VideoRenderer { dims: Some((width, height)), ..*old(self) })
                &&& p == (UploadPlan {
                    new_textures: old(self).dims != Some((width, height)),
                    width,
                    height,
                    y_row: width,
                    u_row: width / 2,
                    v_row: width / 2,
                    content_width: old(self).src_width,
                    content_height: old(self).src_height,
                })
            },
            (*final(self), plan) == old(self).uploaded(width, height),
    {
        if width == 0 || height == 0 {
            return None;
        }
        let new_textures = self.ensure_yuv_textures(width, height);
        Some(
            UploadPlan {
                new_textures,
                width,
                height,
                y_row: width,
                u_row: width / 2,
                v_row: width / 2,
                content_width: self.src_width,
                content_height: self.src_height,
            },
        )
    }

    /// Starts on a picture of `width` by `height` in video memory, reachable through
    /// VDPAU or not.
    pub fn render_vdpau(&mut self, vdpau: bool, width: u32, height: u32) -> (step: VdpauStep)
        ensures
            (final(self).bridges, step) == old(self).bridges.begun(
                vdpau,
                width,
                height,
                old(self).max_texture_dim,
            ),
            *final(self) == (VideoRenderer { bridges: final(self).bridges, ..*old(self) }),
    {
        self.bridges.begin(vdpau, width, height, self.max_texture_dim)
    }

    /// Takes note of whether the bridge in `slot` could copy the picture. A picture
    /// that was copied tells the source's size.
    pub fn on_bridge_copied(&mut self, slot: usize, ok: bool) -> (step: VdpauStep)
        ensures
            ok ==> step == VdpauStep::Draw(slot) && *final(self) == (VideoRenderer {
                src_format: PixelFormat::Yuv420P,
                src_width: old(self).bridges.width,
                src_height: old(self).bridges.height,
                ..*old(self)
            }),
            !ok ==> step == VdpauStep::Fallback && *final(self) == (VideoRenderer {
                bridges: old(self).bridges.failed(),
                ..*old(self)
            }),
    {
        if ok {
            self.src_format = PixelFormat::Yuv420P;
            self.src_width = self.bridges.width;
            self.src_height = self.bridges.height;
        }
        self.bridges.on_copied(slot, ok)
    }
}

/// One plane of a picture, as it is uploaded.
#[derive(Clone, Copy, Debug, PartialEq, Eq, Structural)]
pub struct PlaneUpload {
    pub width: u32,
    pub height: u32,
    /// How far apart the rows are, in bytes.
    pub row: u32,
}

impl UploadPlan {
    /// The three planes.
    pub open spec fn plane_uploads(self) -> (PlaneUpload, PlaneUpload, PlaneUpload) {
        (
            PlaneUpload { width: self.width, height: self.height, row: self.y_row },
            PlaneUpload { width: self.width / 2, height: self.height / 2, row: self.u_row },
            PlaneUpload { width: self.width / 2, height: self.height / 2, row: self.v_row },
        )
    }

    /// The three planes: luma in full size, chroma in half.
    pub fn planes(&self) -> (p: (PlaneUpload, PlaneUpload, PlaneUpload))
        ensures
            p.0 == (PlaneUpload { width: self.width, height: self.height, row: self.y_row }),
            p.1 == (PlaneUpload {
                width: self.width / 2,
                height: self.height / 2,
                row: self.u_row,
            }),
            p.2 == (PlaneUpload {
                width: self.width / 2,
                height: self.height / 2,
                row: self.v_row,
            }),
            p == self.plane_uploads(),
    {
        (
            PlaneUpload { width: self.width, height: self.height, row: self.y_row },
            PlaneUpload { width: self.width / 2, height: self.height / 2, row: self.u_row },
            PlaneUpload { width: self.width / 2, height: self.height / 2, row: self.v_row },
        )
    }
}

/// The size of the texture for a plane of `width` by `height`: no side is empty.
pub fn texture_extent(width: u32, height: u32) -> (e: (u32, u32))
    ensures
        e.0 == (if width < 1 {
            1
        } else {
            width
        }),
        e.1 == (if height < 1 {
            1
        } else {
            height
        }),
{
    (if width < 1 { 1 } else { width }, if height < 1 { 1 } else { height })
}

// ───────────────────── the letterbox ─────────────────────

/// A fraction.
#[derive(Clone, Copy, Debug, PartialEq, Eq, Structural)]
pub struct Ratio {
    pub num: u128,
    pub den: u128,
}

/// Where on the surface the picture goes, in parts of the surface. A texture
/// coordinate is a surface coordinate, less the offset, times the scale.
#[derive(Clone, Copy, Debug, PartialEq, Eq, Structural)]
pub struct Letterbox {
    pub scale_x: Ratio,
    pub scale_y: Ratio,
    pub offset_x: Ratio,
    pub offset_y: Ratio,
}

/// A ratio that is one.
pub open spec fn unit() -> Ratio {
    Ratio { num: 1, den: 1 }
}

/// A ratio that is nothing.
pub open spec fn nil() -> Ratio {
    Ratio { num: 0, den: 1 }
}

/// Where content of `cw` by `ch` goes on a surface of `sw` by `sh`.
pub open spec fn boxed(sw: int, sh: int, cw: int, ch: int) -> Letterbox {
    let wide = sh * cw;
    let tall = sw * ch;
    if wide > tall {
        Letterbox {
            scale_x: unit(),
            scale_y: Ratio { num: wide as u128, den: tall as u128 },
            offset_x: nil(),
            offset_y: Ratio { num: (wide - tall) as u128, den: (2 * wide) as u128 },
        }
    } else {
        Letterbox {
            scale_x: Ratio { num: tall as u128, den: wide as u128 },
            scale_y: unit(),
            offset_x: Ratio { num: (tall - wide) as u128, den: (2 * tall) as u128 },
            offset_y: nil(),
        }
    }
}

/// Fits content of `cw` by `ch` into a surface of `sw` by `sh`, as large as it can
/// be without changing its shape, in the middle: wider content gets bars above
/// and below, narrower content at the sides.
pub fn letterbox(sw: u32, sh: u32, cw: u32, ch: u32) -> (b: Letterbox)
    requires
        sw > 0,
        sh > 0,
        cw > 0,
        ch > 0,
    ensures
        b == boxed(sw as int, sh as int, cw as int, ch as int),
        b.scale_x.num == b.scale_x.den || b.scale_y.num == b.scale_y.den,
        b.scale_x.num >= b.scale_x.den > 0,
        b.scale_y.num >= b.scale_y.den > 0,
{
    proof {
        lemma_area_bound(sh, cw);
        lemma_area_bound(sw, ch);
    }
    let wide: u128 = sh as u128 * cw as u128;
    let tall: u128 = sw as u128 * ch as u128;
    if wide > tall {
        Letterbox {
            scale_x: Ratio { num: 1, den: 1 },
            scale_y: Ratio { num: wide, den: tall },
            offset_x: Ratio { num: 0, den: 1 },
            offset_y: Ratio { num: wide - tall, den: 2 * wide },
        }
    } else {
        Letterbox {
            scale_x: Ratio { num: tall, den: wide },
            scale_y: Ratio { num: 1, den: 1 },
            offset_x: Ratio { num: tall - wide, den: 2 * tall },
            offset_y: Ratio { num: 0, den: 1 },
        }
    }
}

proof fn lemma_area_bound(a: u32, b: u32)
    ensures
        0 <= a * b <= 0xffff_ffff * 0xffff_ffff,
        a > 0 && b > 0 ==> a * b > 0,
{
    assert(0 <= a * b <= 0xffff_ffff * 0xffff_ffff) by (nonlinear_arith)
        requires
            0 <= a <= 0xffff_ffff,
            0 <= b <= 0xffff_ffff,
    ;
    assert(a > 0 && b > 0 ==> a * b > 0) by (nonlinear_arith);
}

// ───────────────────── the surface ─────────────────────

/// The state in which a surface hands out its next texture.
#[derive(Clone, Copy, Debug, PartialEq, Eq, Structural)]
pub enum SurfaceState {
    Success,
    Suboptimal,
    Outdated,
    Lost,
    Timeout,
    Occluded,
    Validation,
}

/// What to do about a surface's state.
#[derive(Clone, Copy, Debug, PartialEq, Eq, Structural)]
pub enum AcquireStep {
    /// Draw.
    Draw,
    /// Configure the surface anew, and ask once more.
    Reconfigure,
    /// Draw nothing this time.
    Skip,
    /// Fail: the surface is broken.
    Fail,
    /// Fail: the surface is still unusable after it was configured anew.
    FailAgain,
}

/// Whether a surface in this state hands out a texture to draw on.
pub open spec fn hands_out(s: SurfaceState) -> bool {
    s is Success || s is Suboptimal
}

/// What to do about a surface's state when a frame is to be drawn; `again` once it
/// was configured anew.
pub open spec fn acquired(s: SurfaceState, again: bool) -> AcquireStep {
    if hands_out(s) {
        AcquireStep::Draw
    } else if again {
        AcquireStep::FailAgain
    } else if s is Outdated || s is Lost {
        AcquireStep::Reconfigure
    } else if s is Validation {
        AcquireStep::Fail
    } else {
        AcquireStep::Skip
    }
}

/// The same when only the overlay is to be drawn.
pub open spec fn overlay_acquired(s: SurfaceState, again: bool) -> AcquireStep {
    if hands_out(s) {
        AcquireStep::Draw
    } else if !again && (s is Outdated || s is Lost) {
        AcquireStep::Reconfigure
    } else {
        AcquireStep::Skip
    }
}

/// What to do about a surface's state when a frame is to be drawn; `again` once it
/// was configured anew.
pub fn acquire_step(s: SurfaceState, again: bool) -> (step: AcquireStep)
    ensures
        step == (if hands_out(s) {
            AcquireStep::Draw
        } else if again {
            AcquireStep::FailAgain
        } else if s is Outdated || s is Lost {
            AcquireStep::Reconfigure
        } else if s is Validation {
            AcquireStep::Fail
        } else {
            AcquireStep::Skip
        }),
        step == acquired(s, again),
{
    match s {
        SurfaceState::Success => AcquireStep::Draw,
        SurfaceState::Suboptimal => AcquireStep::Draw,
        _ => if again {
            AcquireStep::FailAgain
        } else {
            match s {
                SurfaceState::Outdated => AcquireStep::Reconfigure,
                SurfaceState::Lost => AcquireStep::Reconfigure,
                SurfaceState::Validation => AcquireStep::Fail,
                _ => AcquireStep::Skip,
            }
        },
    }
}

/// What to do about a surface's state when only the overlay is to be drawn: it is
/// not worth failing for.
pub fn overlay_acquire_step(s: SurfaceState, again: bool) -> (step: AcquireStep)
    ensures
        step == (if hands_out(s) {
            AcquireStep::Draw
        } else if !again && (s is Outdated || s is Lost) {
            AcquireStep::Reconfigure
        } else {
            AcquireStep::Skip
        }),
        step == overlay_acquired(s, again),
{
    match s {
        SurfaceState::Success => AcquireStep::Draw,
        SurfaceState::Suboptimal => AcquireStep::Draw,
        SurfaceState::Outdated => if again {
            AcquireStep::Skip
        } else {
            AcquireStep::Reconfigure
        },
        SurfaceState::Lost => if again {
            AcquireStep::Skip
        } else {
            AcquireStep::Reconfigure
        },
        _ => AcquireStep::Skip,
    }
}

/// The first place that is marked, and the first place of all where none is: the
/// surface format or alpha mode to use, given which of those on offer suit.
pub fn preferred_place(suits: &[bool]) -> (i: usize)
    requires
        suits@.len() > 0,
    ensures
        i < suits@.len(),
        suits@[i as int] ==> forall|j: int| 0 <= j < i ==> !suits@[j],
        !suits@[i as int] ==> i == 0 && forall|j: int| 0 <= j < suits@.len() ==> !suits@[j],
{
    let mut i: usize = 0;
    while i < suits.len()
        invariant
            i <= suits@.len(),
            forall|j: int| 0 <= j < i ==> !suits@[j],
        decreases suits@.len() - i,
    {
        if suits[i] {
            return i;
        }
        i += 1;
    }
    0
}

/// The renderer's description of itself.
pub open spec fn adapter_text(
    name: Seq<char>,
    device: Seq<char>,
    backend: Seq<char>,
    width: nat,
    height: nat,
    format: Seq<char>,
) -> Seq<char> {
    "gpu: "@ + (if name == ""@ {
        "<unnamed adapter>"@
    } else {
        name
    }) + " ("@ + lower(device) + ", "@ + lower(backend) + ")  surface: "@ + decimal(width) + "x"@
        + decimal(height) + " "@ + format
}

/// The renderer's description of itself: the adapter's name, its kind and backend
/// in lower case, and the surface as it was at the start.
pub fn describe_adapter(
    name: &str,
    device: &str,
    backend: &str,
    width: u32,
    height: u32,
    format: &str,
) -> (s: String)
    ensures
        s@ == adapter_text(name@, device@, backend@, width as nat, height as nat, format@),
{
    let given = chars_of(name);
    let empty = chars_of("");
    let device = chars_of(device);
    let device = string_of(&lower_chars(&device));
    let backend = chars_of(backend);
    let backend = string_of(&lower_chars(&backend));
    let mut s = String::new();
    s.append("gpu: ");
    if same(&given, &empty) {
        s.append("<unnamed adapter>");
    } else {
        s.append(name);
    }
    s.append(" (");
    s.append(device.as_str());
    s.append(", ");
    s.append(backend.as_str());
    s.append(")  surface: ");
    push_decimal(&mut s, width as u64);
    s.append("x");
    push_decimal(&mut s, height as u64);
    s.append(" ");
    s.append(format);
    s
}

/// What a shader reads from a binding.
#[derive(Clone, Copy, Debug, PartialEq, Eq, Structural)]
pub enum BindingKind {
    /// A texture, filtered.
    Texture,
    /// How textures are read.
    Sampler,
    /// Where the picture goes on the surface.
    Uniform,
}

/// What a shader reads, binding by binding: the textures first, then how they are
/// read, then where the picture goes.
pub open spec fn bindings(textures: nat) -> Seq<BindingKind> {
    Seq::new(textures, |i: int| BindingKind::Texture) + seq![
        BindingKind::Sampler,
        BindingKind::Uniform,
    ]
}

/// What the shader for a picture in three planes reads, binding by binding.
pub fn yuv_bindings() -> (v: Vec<BindingKind>)
    ensures
        v@ == bindings(3),
{
    let mut v: Vec<BindingKind> = Vec::new();
    v.push(BindingKind::Texture);
    v.push(BindingKind::Texture);
    v.push(BindingKind::Texture);
    v.push(BindingKind::Sampler);
    v.push(BindingKind::Uniform);
    assert(v@ =~= bindings(3));
    v
}

/// What the shader for a bridged picture reads, binding by binding.
pub fn rgba_bindings() -> (v: Vec<BindingKind>)
    ensures
        v@ == bindings(1),
{
    let mut v: Vec<BindingKind> = Vec::new();
    v.push(BindingKind::Texture);
    v.push(BindingKind::Sampler);
    v.push(BindingKind::Uniform);
    assert(v@ =~= bindings(1));
    v
}

// ───────────────────── laws ─────────────────────

/// The picture keeps its shape on the surface: the part of the surface that it
/// covers has the content's proportions.
pub proof fn law_the_shape_is_kept(sw: u32, sh: u32, cw: u32, ch: u32)
    requires
        sw > 0,
        sh > 0,
        cw > 0,
        ch > 0,
    ensures
        ({
            let b = boxed(sw as int, sh as int, cw as int, ch as int);
            // (sw / scale_x) / (sh / scale_y) == cw / ch
            (sw * ch) * (b.scale_x.den * b.scale_y.num) == (cw * sh) * (b.scale_x.num
                * b.scale_y.den)
        }),
{
    lemma_area_bound(sh, cw);
    lemma_area_bound(sw, ch);
    let wide = sh * cw;
    let tall = sw * ch;
    assert(cw * sh == wide) by (nonlinear_arith)
        requires
            wide == sh * cw,
    ;
    assert(tall * (1 * wide) == wide * (1 * tall)) by (nonlinear_arith);
    assert(tall * (wide * 1) == wide * (tall * 1)) by (nonlinear_arith);
}

/// The picture is in the middle and inside the surface: on each axis the two bars
/// and the picture together make up the surface, and no scale is below one.
pub proof fn law_the_picture_is_centred(sw: u32, sh: u32, cw: u32, ch: u32)
    requires
        sw > 0,
        sh > 0,
        cw > 0,
        ch > 0,
    ensures
        ({
            let b = boxed(sw as int, sh as int, cw as int, ch as int);
            // 2 * offset + 1 / scale == 1
            &&& 2 * b.offset_x.num * b.scale_x.num + b.offset_x.den * b.scale_x.den
                == b.offset_x.den * b.scale_x.num
            &&& 2 * b.offset_y.num * b.scale_y.num + b.offset_y.den * b.scale_y.den
                == b.offset_y.den * b.scale_y.num
            &&& b.scale_x.num >= b.scale_x.den > 0
            &&& b.scale_y.num >= b.scale_y.den > 0
        }),
{
    lemma_area_bound(sh, cw);
    lemma_area_bound(sw, ch);
    let wide = sh * cw;
    let tall = sw * ch;
    let b = boxed(sw as int, sh as int, cw as int, ch as int);
    if wide > tall {
        lemma_bars(b.offset_y, b.scale_y, wide, tall);
        lemma_no_bars(b.offset_x, b.scale_x);
    } else {
        lemma_bars(b.offset_x, b.scale_x, tall, wide);
        lemma_no_bars(b.offset_y, b.scale_y);
    }
}

/// The picture is as large as it can be: on one axis at least it spans the whole surface,
/// from edge to edge. On the other it is as large as its shape lets it be, so that content
/// of the surface's own shape spans both.
pub proof fn law_the_picture_is_as_large_as_it_can_be(sw: u32, sh: u32, cw: u32, ch: u32)
    requires
        sw > 0,
        sh > 0,
        cw > 0,
        ch > 0,
    ensures
        ({
            let b = boxed(sw as int, sh as int, cw as int, ch as int);
            &&& b.scale_x.num == b.scale_x.den || b.scale_y.num == b.scale_y.den
            &&& b.scale_x.num == b.scale_x.den ==> b.offset_x.num == 0
            &&& b.scale_y.num == b.scale_y.den ==> b.offset_y.num == 0
            &&& b.offset_x.den > 0 && b.offset_y.den > 0
            &&& sw * ch == sh * cw ==> b.scale_x.num == b.scale_x.den && b.scale_y.num
                == b.scale_y.den
            &&& cw * sh > ch * sw ==> b.scale_y.num > b.scale_y.den
            &&& cw * sh < ch * sw ==> b.scale_x.num > b.scale_x.den
        }),
{
    lemma_area_bound(sh, cw);
    lemma_area_bound(sw, ch);
    assert(cw * sh == sh * cw) by (nonlinear_arith);
    assert(ch * sw == sw * ch) by (nonlinear_arith);
}

/// A side of the surface is the window's, as long as the adapter takes it, and is never
/// empty.
pub proof fn law_the_surface_is_the_window(x: u32, max: u32)
    requires
        max >= 1,
    ensures
        1 <= held(x, max) <= max,
        1 <= x <= max ==> held(x, max) == x,
        x > max ==> held(x, max) == max,
{
}

/// A picture is drawn as it lies only where the adapter takes its sides and the source
/// announced no other shape; and there it is.
pub proof fn law_what_is_drawn_in_place_fits(r: VideoRenderer, width: u32, height: u32)
    ensures
        r.takes_arena(width, height) ==> {
            &&& width <= r.max_texture_dim && height <= r.max_texture_dim
            &&& r.src_format == PixelFormat::Yuv420P
            &&& r.src_width != 0 ==> r.src_width == width
            &&& r.src_height != 0 ==> r.src_height == height
        },
        width <= r.max_texture_dim && height <= r.max_texture_dim && r.src_format
            == PixelFormat::Yuv420P && r.src_width == width && r.src_height == height
            ==> r.takes_arena(width, height),
        width <= r.max_texture_dim && height <= r.max_texture_dim && r.src_format
            == PixelFormat::Yuv420P && r.src_width == 0 && r.src_height == 0 ==> r.takes_arena(
            width,
            height,
        ),
{
}

/// A first plane of `height` rows of `width` bytes tells the size of the picture, where the
/// source has not told it; a source that has is believed.
pub proof fn law_a_plane_tells_its_size(r: VideoRenderer, shape: FrameShape, width: u32, height: u32)
    requires
        r.src_format == PixelFormat::Yuv420P,
        width > 0,
        height > 0,
        shape.planes >= 3,
        shape.stride == width,
        shape.len == width * height,
    ensures
        r.src_width == 0 || r.src_height == 0 ==> r.inferred_size(shape) == Some((width, height)),
        r.src_width > 0 && r.src_height > 0 ==> r.inferred_size(shape) is None,
{
    assert(width * height == height * width) by (nonlinear_arith);
    vstd::arithmetic::div_mod::lemma_div_by_multiple(height as int, width as int);
    vstd::arithmetic::div_mod::lemma_small_mod(width as nat, 0x1_0000_0000);
    vstd::arithmetic::div_mod::lemma_small_mod(height as nat, 0x1_0000_0000);
}

/// Only a planar 4:2:0 frame with all its planes tells a size, and what it tells is not
/// empty.
pub proof fn law_other_frames_tell_no_size(r: VideoRenderer, shape: FrameShape)
    ensures
        shape.planes < 3 || shape.stride == 0 || shape.len < shape.stride || r.src_format
            != PixelFormat::Yuv420P ==> r.inferred_size(shape) is None,
        r.inferred_size(shape) matches Some((w, h)) ==> w > 0 && h > 0,
{
    if 0 < shape.stride && shape.len < shape.stride {
        vstd::arithmetic::div_mod::lemma_basic_div(shape.len as int, shape.stride as int);
    }
}

/// What is uploaded is the frame as it was prepared, in planes without padding, of which
/// the chroma planes are half as wide and half as high; the shape that it keeps on the
/// surface is the source's, however much it was shrunk. Textures are made anew exactly where
/// those that are there have another size.
pub proof fn law_a_frame_is_uploaded_whole(r: VideoRenderer, width: u32, height: u32)
    requires
        width > 0,
        height > 0,
    ensures
        ({
            let (next, plan) = r.uploaded(width, height);
            &&& plan is Some
            &&& plan->0.content_width == r.src_width && plan->0.content_height == r.src_height
            &&& next.dims == Some((width, height))
            &&& plan->0.new_textures <==> next.dims != r.dims
            &&& next == VideoRenderer { dims: next.dims, ..r }
            &&& ({
                let (y, u, v) = plan->0.plane_uploads();
                &&& y.width == width && y.height == height && y.row == y.width
                &&& u == v
                &&& u.row == u.width
                &&& 2 * u.width <= width <= 2 * u.width + 1
                &&& 2 * u.height <= height <= 2 * u.height + 1
            })
            &&& next.uploaded(width, height).1->0.new_textures == false
            &&& r.uploaded(0, height) == (r, None::<UploadPlan>)
            &&& r.uploaded(width, 0) == (r, None::<UploadPlan>)
        }),
{
}

/// A surface that hands out a texture is drawn on. One that does not is configured anew
/// once at most, and then given up; only the overlay is never worth failing for.
pub proof fn law_a_surface_gets_one_more_chance(s: SurfaceState, again: bool)
    ensures
        acquired(s, again) == AcquireStep::Draw <==> hands_out(s),
        overlay_acquired(s, again) == AcquireStep::Draw <==> hands_out(s),
        hands_out(s) <==> s is Success || s is Suboptimal,
        again ==> acquired(s, again) != AcquireStep::Reconfigure && overlay_acquired(s, again)
            != AcquireStep::Reconfigure,
        again && !hands_out(s) ==> acquired(s, again) == AcquireStep::FailAgain,
        !again ==> (acquired(s, again) == AcquireStep::Reconfigure <==> s is Outdated || s is Lost),
        !again ==> (acquired(s, again) == AcquireStep::Fail <==> s is Validation),
        !again ==> acquired(s, again) != AcquireStep::FailAgain,
        !again ==> (overlay_acquired(s, again) == AcquireStep::Reconfigure <==> acquired(s, again)
            == AcquireStep::Reconfigure),
        overlay_acquired(s, again) != AcquireStep::Fail && overlay_acquired(s, again)
            != AcquireStep::FailAgain,
{
}

/// A shader's bindings are its textures, then how they are read, then where the picture
/// goes.
pub proof fn law_bindings_put_textures_first(textures: nat, i: int)
    ensures
        bindings(textures).len() == textures + 2,
        0 <= i < textures ==> bindings(textures)[i] == BindingKind::Texture,
        bindings(textures)[textures as int] == BindingKind::Sampler,
        bindings(textures)[textures as int + 1] == BindingKind::Uniform,
{
}

proof fn lemma_bars(offset: Ratio, scale: Ratio, long: int, short: int)
    requires
        offset.num == long - short,
        offset.den == 2 * long,
        scale.num == long,
        scale.den == short,
    ensures
        2 * offset.num * scale.num + offset.den * scale.den == offset.den * scale.num,
{
    assert(2 * offset.num * scale.num + offset.den * scale.den == offset.den * scale.num)
        by (nonlinear_arith)
        requires
            offset.num == long - short,
            offset.den == 2 * long,
            scale.num == long,
            scale.den == short,
    ;
}

proof fn lemma_no_bars(offset: Ratio, scale: Ratio)
    requires
        offset == nil(),
        scale == unit(),
    ensures
        2 * offset.num * scale.num + offset.den * scale.den == offset.den * scale.num,
{
    assert(2 * 0 * 1 + 1 * 1 == 1 * 1);
}

} // verus!
