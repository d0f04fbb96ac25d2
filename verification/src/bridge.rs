//! The bridge that draws VDPAU pictures without leaving video memory: its build
//! in stages, the copy into a texture, and the pool of bridges that frames take
//! turns on.
//!
//! The calls into X11, OpenGL and Vulkan are the caller's. Here stands what is
//! called in which order, what a failure says, and what is undone.

use vstd::prelude::*;

use crate::text::{is_among, push_decimal, push_hex};
#[allow(unused_imports)]
use crate::text::{decimal, numeral, texts};

verus! {

/// The bridges that frames take turns on.
pub const VDPAU_BRIDGE_SLOTS: usize = 4;

/// The user is told of a dropped frame at the first, and then at every one of
/// this number.
pub const BUSY_NOTICE_EVERY: u64 = 120;

// ───────────────────── the pool ─────────────────────

/// What a slot says when it is asked whether it is ready.
#[derive(Clone, Copy, Debug, PartialEq, Eq, Structural)]
pub enum SlotAnswer {
    Busy,
    Ready,
    Failed,
}

/// A search for the first slot that is ready.
pub struct SlotSearch {
    pub slots: usize,
    /// The slots that have been asked.
    pub asked: usize,
    /// Whether a slot was ready or failed: no other is asked.
    pub over: bool,
}

impl SlotSearch {
    /// The slot to ask next.
    pub open spec fn upcoming(self) -> Option<usize> {
        if !self.over && self.asked < self.slots {
            Some(self.asked)
        } else {
            None
        }
    }

    /// After the slot that was to be asked next has given `answer`.
    pub open spec fn after(self, answer: SlotAnswer) -> SlotSearch {
        SlotSearch {
            asked: (self.asked + 1) as usize,
            over: answer != SlotAnswer::Busy,
            ..self
        }
    }

    /// The slots that are asked from here on, in order, where slot `i` gives `says(i)`.
    pub open spec fn questions(self, says: spec_fn(usize) -> SlotAnswer) -> Seq<usize>
        decreases self.slots - self.asked,
    {
        match self.upcoming() {
            Some(slot) => seq![slot] + self.after(says(slot)).questions(says),
            None => Seq::empty(),
        }
    }

    /// A search among `slots`.
    pub fn new(slots: usize) -> (s: Self)
        ensures
            s == (SlotSearch { slots, asked: 0, over: false }),
    {
        SlotSearch { slots, asked: 0, over: false }
    }

    /// The slot to ask next; `None` when the search is over.
    pub fn next_slot(&self) -> (slot: Option<usize>)
        ensures
            slot == self.upcoming(),
    {
        if !self.over && self.asked < self.slots {
            Some(self.asked)
        } else {
            None
        }
    }

    /// Takes note of what the slot said.
    pub fn on_answer(&mut self, answer: SlotAnswer)
        requires
            old(self).upcoming() is Some,
        ensures
            *final(self) == old(self).after(answer),
    {
        self.asked = self.asked + 1;
        self.over = answer != SlotAnswer::Busy;
    }
}

/// Whether `poll` fails with `e` at slot `i`, and reports every slot before it
/// busy.
pub open spec fn fails_at<E, F: FnMut(usize) -> Result<bool, E>>(poll: F, i: usize, e: E) -> bool {
    &&& call_ensures(poll, (i,), Err(e))
    &&& forall|j: usize| j < i ==> call_ensures(poll, (j,), Ok(false))
}

/// The first slot that `poll` reports ready, asking in order and stopping there;
/// `None` when every slot was asked and none is ready.
pub fn first_ready_slot<E>(
    slot_count: usize,
    poll: impl FnMut(usize) -> Result<bool, E>,
) -> (r: Result<Option<usize>, E>)
    requires
        forall|i: usize| i < slot_count ==> call_requires(poll, (i,)),
    ensures
        r matches Ok(Some(i)) ==> {
            &&& i < slot_count
            &&& call_ensures(poll, (i,), Ok(true))
            &&& forall|j: usize| j < i ==> call_ensures(poll, (j,), Ok(false))
        },
        r matches Ok(None) ==> forall|j: usize|
            j < slot_count ==> call_ensures(poll, (j,), Ok(false)),
        r matches Err(e) ==> exists|i: usize| i < slot_count && #[trigger] fails_at(poll, i, e),
{
    let mut ask = poll;
    let mut search = SlotSearch::new(slot_count);
    let mut found: Result<Option<usize>, E> = Ok(None);
    loop
        invariant
            search.slots == slot_count,
            search.asked <= slot_count,
            ask == poll,
            forall|i: usize| i < slot_count ==> call_requires(poll, (i,)),
            !search.over ==> found == Ok::<Option<usize>, E>(None) && forall|j: usize|
                j < search.asked ==> call_ensures(poll, (j,), Ok(false)),
            search.over ==> {
                &&& found matches Ok(r) ==> {
                    &&& r matches Some(i)
                    &&& i < slot_count
                    &&& call_ensures(poll, (i,), Ok(true))
                    &&& forall|j: usize| j < i ==> call_ensures(poll, (j,), Ok(false))
                }
                &&& found matches Err(e) ==> exists|i: usize|
                    i < slot_count && #[trigger] fails_at(poll, i, e)
            },
        decreases slot_count - search.asked,
    {
        match search.next_slot() {
            None => {
                return found;
            },
            Some(slot) => match ask(slot) {
                Ok(true) => {
                    found = Ok(Some(slot));
                    search.on_answer(SlotAnswer::Ready);
                },
                Ok(false) => {
                    search.on_answer(SlotAnswer::Busy);
                },
                Err(e) => {
                    found = Err(e);
                    assert(fails_at(poll, slot, found->Err_0));
                    search.on_answer(SlotAnswer::Failed);
                },
            },
        }
    }
}

/// The pool of bridges, and whether it is still worth trying.
pub struct BridgePool {
    /// The bridges that are there.
    pub slots: usize,
    /// The size of the pictures that they are for.
    pub width: u32,
    pub height: u32,
    /// Whether the bridge failed once: pictures are copied from then on.
    pub disabled: bool,
    /// The frames dropped because every bridge was busy.
    pub busy_drops: u64,
}

/// What to do with a picture in video memory.
#[derive(Clone, Copy, Debug, PartialEq, Eq, Structural)]
pub enum VdpauStep {
    /// Copy it to ordinary memory, and draw that.
    Fallback,
    /// Build one bridge.
    Build,
    /// Ask the bridges whether one is free.
    Poll,
    /// Hand it to the bridge in this slot.
    Copy(usize),
    /// Draw what the bridge in this slot made of it.
    Draw(usize),
    /// Drop it: every bridge is busy. The user may have to be told.
    Dropped { tell: bool },
}

/// What asking the bridges gave.
#[derive(Clone, Copy, Debug, PartialEq, Eq, Structural)]
pub enum PollOutcome {
    Failed,
    AllBusy,
    Ready(usize),
}

impl BridgePool {
    /// A pool without bridges.
    pub fn new() -> (p: Self)
        ensures
            p == (BridgePool { slots: 0, width: 0, height: 0, disabled: false, busy_drops: 0 }),
    {
        BridgePool { slots: 0, width: 0, height: 0, disabled: false, busy_drops: 0 }
    }

    /// The pool after the bridge has failed.
    pub open spec fn failed(self) -> BridgePool {
        BridgePool { slots: 0, disabled: true, ..self }
    }

    /// Whether a picture of `width` by `height` can be bridged at all, on an
    /// adapter that takes sides of `max_dim` at most.
    pub open spec fn takes(self, vdpau: bool, width: u32, height: u32, max_dim: u32) -> bool {
        !self.disabled && vdpau && 0 < width <= max_dim && 0 < height <= max_dim
    }

    /// After starting on a picture of `width` by `height`, and what to do with it.
    /// Bridges for another size are let go, and new ones are built.
    pub open spec fn begun(self, vdpau: bool, width: u32, height: u32, max_dim: u32) -> (
        BridgePool,
        VdpauStep,
    ) {
        if !self.takes(vdpau, width, height, max_dim) {
            (self, VdpauStep::Fallback)
        } else if self.slots > 0 && self.width == width && self.height == height {
            (self, VdpauStep::Poll)
        } else {
            (BridgePool { slots: 0, width, height, ..self }, VdpauStep::Build)
        }
    }

    /// Starts on a picture of `width` by `height`.
    pub fn begin(&mut self, vdpau: bool, width: u32, height: u32, max_dim: u32) -> (step: VdpauStep)
        ensures
            (*final(self), step) == old(self).begun(vdpau, width, height, max_dim),
    {
        if self.disabled || !vdpau {
            return VdpauStep::Fallback;
        }
        if width == 0 || height == 0 || width > max_dim || height > max_dim {
            return VdpauStep::Fallback;
        }
        if self.slots > 0 && self.width == width && self.height == height {
            return VdpauStep::Poll;
        }
        self.slots = 0;
        self.width = width;
        self.height = height;
        VdpauStep::Build
    }

    /// After trying to build a bridge, and what to do next.
    pub open spec fn built(self, ok: bool) -> (BridgePool, VdpauStep) {
        if !ok {
            (self.failed(), VdpauStep::Fallback)
        } else if self.slots + 1 < VDPAU_BRIDGE_SLOTS {
            (BridgePool { slots: (self.slots + 1) as usize, ..self }, VdpauStep::Build)
        } else {
            (
                BridgePool { slots: (self.slots + 1) as usize, busy_drops: 0, ..self },
                VdpauStep::Poll,
            )
        }
    }

    /// After asking the bridges, and what to do next.
    pub open spec fn asked(self, outcome: PollOutcome) -> (BridgePool, VdpauStep) {
        match outcome {
            PollOutcome::Failed => (self.failed(), VdpauStep::Fallback),
            PollOutcome::Ready(slot) => (self, VdpauStep::Copy(slot)),
            PollOutcome::AllBusy => {
                let n = self.busy_drops + 1;
                (
                    BridgePool { busy_drops: n as u64, ..self },
                    VdpauStep::Dropped { tell: n == 1 || n % 120 == 0 },
                )
            },
        }
    }

    /// Takes note of whether a bridge could be built. The pool is ready when it is
    /// full; a failure disables it.
    pub fn on_built(&mut self, ok: bool) -> (step: VdpauStep)
        requires
            old(self).slots < VDPAU_BRIDGE_SLOTS,
        ensures
            !ok ==> step == VdpauStep::Fallback && *final(self) == old(self).failed(),
            ok && old(self).slots + 1 < VDPAU_BRIDGE_SLOTS ==> step == VdpauStep::Build
                && *final(self) == (BridgePool {
                slots: (old(self).slots + 1) as usize,
                ..*old(self)
            }),
            ok && old(self).slots + 1 == VDPAU_BRIDGE_SLOTS ==> step == VdpauStep::Poll
                && *final(self) == (BridgePool {
                slots: VDPAU_BRIDGE_SLOTS,
                busy_drops: 0,
                ..*old(self)
            }),
            (*final(self), step) == old(self).built(ok),
    {
        if !ok {
            return self.fail();
        }
        self.slots = self.slots + 1;
        if self.slots < VDPAU_BRIDGE_SLOTS {
            VdpauStep::Build
        } else {
            self.busy_drops = 0;
            VdpauStep::Poll
        }
    }

    /// Takes note of what asking the bridges gave. When all are busy the picture
    /// is dropped rather than copied.
    pub fn on_polled(&mut self, outcome: PollOutcome) -> (step: VdpauStep)
        requires
            old(self).busy_drops < u64::MAX,
        ensures
            match outcome {
                PollOutcome::Failed => step == VdpauStep::Fallback && *final(self)
                    == old(self).failed(),
                PollOutcome::Ready(slot) => step == VdpauStep::Copy(slot) && *final(self)
                    == *old(self),
                PollOutcome::AllBusy => {
                    let n = old(self).busy_drops + 1;
                    &&& step == (VdpauStep::Dropped { tell: n == 1 || n % 120 == 0 })
                    &&& *final(self) == (BridgePool { busy_drops: n as u64, ..*old(self) })
                },
            },
            (*final(self), step) == old(self).asked(outcome),
    {
        match outcome {
            PollOutcome::Failed => self.fail(),
            PollOutcome::Ready(slot) => VdpauStep::Copy(slot),
            PollOutcome::AllBusy => {
                self.busy_drops = self.busy_drops + 1;
                VdpauStep::Dropped {
                    tell: self.busy_drops == 1 || self.busy_drops % BUSY_NOTICE_EVERY == 0,
                }
            },
        }
    }

    /// Takes note of whether the bridge in `slot` could copy the picture.
    pub fn on_copied(&mut self, slot: usize, ok: bool) -> (step: VdpauStep)
        ensures
            ok ==> step == VdpauStep::Draw(slot) && *final(self) == *old(self),
            !ok ==> step == VdpauStep::Fallback && *final(self) == old(self).failed(),
    {
        if ok {
            VdpauStep::Draw(slot)
        } else {
            self.fail()
        }
    }

    /// Gives the bridge up for good.
    fn fail(&mut self) -> (step: VdpauStep)
        ensures
            step == VdpauStep::Fallback,
            *final(self) == old(self).failed(),
    {
        self.slots = 0;
        self.disabled = true;
        VdpauStep::Fallback
    }

    /// The notice that the pool is ready.
    pub fn ready_notice(&self) -> (s: String)
        ensures
            s@ == "oxideplay: VDPAU GPU bridge active (GLX interop2 -> Vulkan, "@ + decimal(
                self.width as nat,
            ) + "x"@ + decimal(self.height as nat) + ", "@ + decimal(VDPAU_BRIDGE_SLOTS as nat)
                + " async slots)"@,
    {
        let mut s = String::new();
        s.append("oxideplay: VDPAU GPU bridge active (GLX interop2 -> Vulkan, ");
        push_decimal(&mut s, self.width as u64);
        s.append("x");
        push_decimal(&mut s, self.height as u64);
        s.append(", ");
        push_decimal(&mut s, VDPAU_BRIDGE_SLOTS as u64);
        s.append(" async slots)");
        s
    }

    /// The notice that a frame was dropped.
    pub fn busy_notice() -> (s: String)
        ensures
            s@ == "oxideplay: all "@ + decimal(VDPAU_BRIDGE_SLOTS as nat)
                + " VDPAU GPU slots are in flight; dropping video frame without CPU fallback"@,
    {
        let mut s = String::new();
        s.append("oxideplay: all ");
        push_decimal(&mut s, VDPAU_BRIDGE_SLOTS as u64);
        s.append(" VDPAU GPU slots are in flight; dropping video frame without CPU fallback");
        s
    }
}

// ───────────────────── one bridge ─────────────────────

/// What a bridge knows of itself. `L` is the handle of a picture in video memory.
pub struct VdpauVulkanBridge<L> {
    pub width: u32,
    pub height: u32,
    /// Whether its output has been drawn from.
    pub output_sampled: bool,
    /// Whether OpenGL has been told to wait until Vulkan has readied the shared image.
    pub ready_awaited: bool,
    /// The VDPAU device that OpenGL was last set up for, and its entry point.
    pub vdpau_device: Option<(u32, usize)>,
    /// The picture that a copy under way still reads.
    pub in_flight: Option<L>,
}

/// What has to be done before OpenGL can read from a VDPAU device.
#[derive(Clone, Copy, Debug, PartialEq, Eq, Structural)]
pub enum VdpauSetup {
    /// Nothing: it is set up for this device.
    Keep,
    /// Set it up.
    Init,
    /// Take down the setup for another device, and set it up.
    Renew,
}

impl<L> VdpauVulkanBridge<L> {
    /// A bridge for pictures of `width` by `height`, which must not be empty.
    pub fn new(width: u32, height: u32) -> (b: Option<Self>)
        ensures
            b is Some <==> width > 0 && height > 0,
            b matches Some(b) ==> b == (VdpauVulkanBridge::<L> {
                width,
                height,
                output_sampled: false,
                ready_awaited: false,
                vdpau_device: None,
                in_flight: None,
            }),
    {
        if width == 0 || height == 0 {
            return None;
        }
        Some(
            VdpauVulkanBridge {
                width,
                height,
                output_sampled: false,
                ready_awaited: false,
                vdpau_device: None,
                in_flight: None,
            },
        )
    }

    /// The size of the pictures that the bridge is for.
    pub fn dimensions(&self) -> (d: (u32, u32))
        ensures
            d == (self.width, self.height),
    {
        (self.width, self.height)
    }

    /// Takes note that the output has been drawn from.
    pub fn mark_sampled(&mut self)
        ensures
            *final(self) == (VdpauVulkanBridge { output_sampled: true, ..*old(self) }),
    {
        self.output_sampled = true;
    }

    /// After starting to draw, and whether that has to wait on the device until Vulkan
    /// has readied the shared image: the first time it has.
    pub open spec fn drawing(self) -> (Self, bool) {
        (VdpauVulkanBridge { ready_awaited: true, ..self }, !self.ready_awaited)
    }

    /// Whether the drawing that starts now has to wait on the device until Vulkan has
    /// readied the shared image.
    pub fn on_drawing(&mut self) -> (wait: bool)
        ensures
            (*final(self), wait) == old(self).drawing(),
    {
        let wait = !self.ready_awaited;
        self.ready_awaited = true;
        wait
    }

    /// After asking whether the bridge is free, and the answer; `copied` says
    /// whether the copy under way is done.
    pub open spec fn polled(self, copied: bool) -> (Self, bool) {
        if self.in_flight is None || copied {
            (VdpauVulkanBridge { in_flight: None, ..self }, true)
        } else {
            (self, false)
        }
    }

    /// Whether the bridge is free. A picture is let go only once the copy that reads
    /// it is done, which `copied` says.
    pub fn is_available(&mut self, copied: bool) -> (free: bool)
        ensures
            (*final(self), free) == old(self).polled(copied),
    {
        if self.in_flight.is_none() {
            return true;
        }
        if copied {
            self.in_flight = None;
        }
        copied
    }

    /// Holds on to a picture whose copy has been submitted.
    pub fn on_submitted(&mut self, picture: L)
        requires
            old(self).in_flight is None,
        ensures
            *final(self) == (VdpauVulkanBridge { in_flight: Some(picture), ..*old(self) }),
    {
        self.in_flight = Some(picture);
    }

    /// Whether the bridge can take a picture of `width` by `height`.
    pub fn accepts(&self, width: u32, height: u32) -> (b: bool)
        ensures
            b == (width == self.width && height == self.height),
    {
        width == self.width && height == self.height
    }

    /// What has to be done before a picture of the device `next` can be read.
    pub open spec fn setup_for(self, next: (u32, usize)) -> VdpauSetup {
        match self.vdpau_device {
            None => VdpauSetup::Init,
            Some(d) => if d == next {
                VdpauSetup::Keep
            } else {
                VdpauSetup::Renew
            },
        }
    }

    /// What has to be done before a picture of the device `next` can be read.
    pub fn ensure_vdpau(&self, next: (u32, usize)) -> (setup: VdpauSetup)
        ensures
            setup == (match self.vdpau_device {
                None => VdpauSetup::Init,
                Some(d) => if d == next {
                    VdpauSetup::Keep
                } else {
                    VdpauSetup::Renew
                },
            }),
            setup == self.setup_for(next),
    {
        match self.vdpau_device {
            None => VdpauSetup::Init,
            Some(d) => if d.0 == next.0 && d.1 == next.1 {
                VdpauSetup::Keep
            } else {
                VdpauSetup::Renew
            },
        }
    }

    /// Takes note that OpenGL is set up for the device `next`.
    pub fn on_vdpau_ready(&mut self, next: (u32, usize))
        ensures
            *final(self) == (VdpauVulkanBridge { vdpau_device: Some(next), ..*old(self) }),
    {
        self.vdpau_device = Some(next);
    }
}

/// A layout of an image.
#[derive(Clone, Copy, Debug, PartialEq, Eq, Structural)]
pub enum Layout {
    ShaderReadOnly,
    ColorAttachment,
    TransferDst,
}

/// What is done to an image.
#[derive(Clone, Copy, Debug, PartialEq, Eq, Structural)]
pub enum Access {
    ShaderRead,
    ColorAttachmentWrite,
    TransferWrite,
}

/// Where in the pipeline it is done.
#[derive(Clone, Copy, Debug, PartialEq, Eq, Structural)]
pub enum Stage {
    FragmentShader,
    ColorAttachmentOutput,
    Transfer,
}

/// The state of an image between commands.
#[derive(Clone, Copy, Debug, PartialEq, Eq, Structural)]
pub struct ImageState {
    pub layout: Layout,
    pub access: Access,
    pub stage: Stage,
}

/// A barrier that takes an image from one state to another.
#[derive(Clone, Copy, Debug, PartialEq, Eq, Structural)]
pub struct Barrier {
    pub from: ImageState,
    pub to: ImageState,
}

/// The state in which the renderer believes the output to be between copies: as it
/// was made until it has been drawn from, as it is drawn from ever after.
pub open spec fn resting_state(sampled: bool) -> ImageState {
    if sampled {
        ImageState {
            layout: Layout::ShaderReadOnly,
            access: Access::ShaderRead,
            stage: Stage::FragmentShader,
        }
    } else {
        ImageState {
            layout: Layout::ColorAttachment,
            access: Access::ColorAttachmentWrite,
            stage: Stage::ColorAttachmentOutput,
        }
    }
}

/// The state in which an image is copied to.
pub open spec fn copy_state() -> ImageState {
    ImageState {
        layout: Layout::TransferDst,
        access: Access::TransferWrite,
        stage: Stage::Transfer,
    }
}

/// The barriers around the copy into the output: the first readies it, and the
/// second puts it back into exactly the state that the renderer believes it has.
pub fn copy_barriers(sampled: bool) -> (b: (Barrier, Barrier))
    ensures
        b.0 == (Barrier { from: resting_state(sampled), to: copy_state() }),
        b.1 == (Barrier { from: copy_state(), to: resting_state(sampled) }),
{
    let resting = if sampled {
        ImageState {
            layout: Layout::ShaderReadOnly,
            access: Access::ShaderRead,
            stage: Stage::FragmentShader,
        }
    } else {
        ImageState {
            layout: Layout::ColorAttachment,
            access: Access::ColorAttachmentWrite,
            stage: Stage::ColorAttachmentOutput,
        }
    };
    let copying = ImageState {
        layout: Layout::TransferDst,
        access: Access::TransferWrite,
        stage: Stage::Transfer,
    };
    (Barrier { from: resting, to: copying }, Barrier { from: copying, to: resting })
}

/// Whether bit `i` of `bits` is set.
pub open spec fn bit_set(bits: u32, i: int) -> bool {
    (bits >> (i as u32)) & 1 == 1
}

/// The first memory type that `bits` allows and that lies on the device;
/// `device_local` says of each type whether it does.
pub fn find_device_local_memory_type(bits: u32, device_local: &[bool]) -> (r: Option<u32>)
    requires
        device_local@.len() <= 32,
    ensures
        r matches Some(i) ==> {
            &&& i < device_local@.len()
            &&& bit_set(bits, i as int) && device_local@[i as int]
            &&& forall|j: int| 0 <= j < i ==> !(#[trigger] bit_set(bits, j) && device_local@[j])
        },
        r is None ==> forall|j: int|
            0 <= j < device_local@.len() ==> !(#[trigger] bit_set(bits, j) && device_local@[j]),
{
    let mut i: usize = 0;
    while i < device_local.len()
        invariant
            i <= device_local@.len() <= 32,
            forall|j: int| 0 <= j < i ==> !(#[trigger] bit_set(bits, j) && device_local@[j]),
        decreases device_local@.len() - i,
    {
        let k: u32 = i as u32;
        assert(bit_set(bits, i as int) == ((bits >> k) & 1 == 1));
        if (bits >> k) & 1 == 1 && device_local[i] {
            return Some(k);
        }
        i += 1;
    }
    None
}

/// What is said of an error that OpenGL reports.
pub open spec fn gl_error_text(place: Seq<char>, error: u32) -> Seq<char> {
    "VDPAU bridge "@ + place + ": GL error 0x"@ + numeral(error as nat, 16)
}

/// Whether OpenGL reports an error, and what is said of it. No error is zero.
pub fn gl_check(error: u32, place: &str) -> (r: Result<(), String>)
    ensures
        r is Ok <==> error == 0,
        r matches Err(s) ==> s@ == gl_error_text(place@, error),
{
    if error == 0 {
        return Ok(());
    }
    let mut s = String::new();
    s.append("VDPAU bridge ");
    s.append(place);
    s.append(": GL error 0x");
    push_hex(&mut s, error as u64);
    Err(s)
}

/// The OpenGL extension at place `i` of those that the bridge needs.
pub open spec fn needed_extension(i: int) -> Seq<char> {
    if i == 0 {
        "GL_NV_vdpau_interop"@
    } else if i == 1 {
        "GL_NV_vdpau_interop2"@
    } else if i == 2 {
        "GL_EXT_memory_object"@
    } else if i == 3 {
        "GL_EXT_memory_object_fd"@
    } else {
        "GL_NV_draw_vulkan_image"@
    }
}

/// The OpenGL extension at place `i` of those that the bridge needs.
fn extension_name(i: usize) -> (s: &'static str)
    requires
        i < 5,
    ensures
        s@ == needed_extension(i as int),
{
    if i == 0 {
        "GL_NV_vdpau_interop"
    } else if i == 1 {
        "GL_NV_vdpau_interop2"
    } else if i == 2 {
        "GL_EXT_memory_object"
    } else if i == 3 {
        "GL_EXT_memory_object_fd"
    } else {
        "GL_NV_draw_vulkan_image"
    }
}

/// The first OpenGL extension that the bridge needs and that is not among
/// `supported`.
pub fn missing_extension(supported: &[String]) -> (r: Option<&'static str>)
    ensures
        r is None <==> forall|i: int|
            0 <= i < 5 ==> texts(supported@).contains(#[trigger] needed_extension(i)),
        r matches Some(s) ==> exists|i: int|
            {
                &&& 0 <= i < 5
                &&& s@ == #[trigger] needed_extension(i)
                &&& !texts(supported@).contains(needed_extension(i))
                &&& forall|j: int|
                    0 <= j < i ==> texts(supported@).contains(#[trigger] needed_extension(j))
            },
{
    let mut i: usize = 0;
    while i < 5
        invariant
            i <= 5,
            forall|j: int|
                0 <= j < i ==> texts(supported@).contains(#[trigger] needed_extension(j)),
        decreases 5 - i,
    {
        let name = extension_name(i);
        if !is_among(name, supported) {
            assert(name@ == needed_extension(i as int));
            return Some(name);
        }
        i += 1;
    }
    None
}

/// The OpenGL entry point at place `i` of those that the bridge calls.
pub open spec fn entry_point(i: int) -> Seq<char> {
    if i == 0 {
        "glVDPAUInitNV"@
    } else if i == 1 {
        "glVDPAUFiniNV"@
    } else if i == 2 {
        "glVDPAURegisterVideoSurfaceWithPictureStructureNV"@
    } else if i == 3 {
        "glVDPAUSurfaceAccessNV"@
    } else if i == 4 {
        "glVDPAUMapSurfacesNV"@
    } else if i == 5 {
        "glVDPAUUnmapSurfacesNV"@
    } else if i == 6 {
        "glVDPAUUnregisterSurfaceNV"@
    } else if i == 7 {
        "glCreateMemoryObjectsEXT"@
    } else if i == 8 {
        "glDeleteMemoryObjectsEXT"@
    } else if i == 9 {
        "glMemoryObjectParameterivEXT"@
    } else if i == 10 {
        "glImportMemoryFdEXT"@
    } else if i == 11 {
        "glTextureStorageMem2DEXT"@
    } else if i == 12 {
        "glSignalVkSemaphoreNV"@
    } else {
        "glWaitVkSemaphoreNV"@
    }
}

/// The OpenGL entry point at place `i` of the fourteen that the bridge calls, in the
/// order in which they are looked up.
pub fn entry_point_name(i: usize) -> (s: &'static str)
    requires
        i < 14,
    ensures
        s@ == entry_point(i as int),
{
    if i == 0 {
        "glVDPAUInitNV"
    } else if i == 1 {
        "glVDPAUFiniNV"
    } else if i == 2 {
        "glVDPAURegisterVideoSurfaceWithPictureStructureNV"
    } else if i == 3 {
        "glVDPAUSurfaceAccessNV"
    } else if i == 4 {
        "glVDPAUMapSurfacesNV"
    } else if i == 5 {
        "glVDPAUUnmapSurfacesNV"
    } else if i == 6 {
        "glVDPAUUnregisterSurfaceNV"
    } else if i == 7 {
        "glCreateMemoryObjectsEXT"
    } else if i == 8 {
        "glDeleteMemoryObjectsEXT"
    } else if i == 9 {
        "glMemoryObjectParameterivEXT"
    } else if i == 10 {
        "glImportMemoryFdEXT"
    } else if i == 11 {
        "glTextureStorageMem2DEXT"
    } else if i == 12 {
        "glSignalVkSemaphoreNV"
    } else {
        "glWaitVkSemaphoreNV"
    }
}

/// A step of taking a bridge down.
#[derive(Clone, Copy, Debug, PartialEq, Eq, Structural)]
pub enum Teardown {
    /// Vulkan and OpenGL have finished what they were doing.
    WaitVulkan,
    WaitOpenGl,
    /// The picture that a copy still held is unmapped and let go.
    Picture,
    /// OpenGL lets go of the VDPAU device.
    VdpauSetup,
    Program,
    VertexArray,
    Framebuffer,
    Texture,
    MemoryObject,
    /// No GLX context is current any more.
    LeaveContext,
    Pbuffer,
    Context,
    Display,
    Fence,
    Semaphore,
    ReadySemaphore,
    CommandPool,
    Image,
    Memory,
}

/// The steps of taking a bridge down: what uses a thing goes before it.
pub open spec fn teardown(in_flight: bool, set_up: bool) -> Seq<Teardown> {
    seq![Teardown::WaitVulkan, Teardown::WaitOpenGl] + (if in_flight {
        seq![Teardown::Picture]
    } else {
        seq![]
    }) + (if set_up {
        seq![Teardown::VdpauSetup]
    } else {
        seq![]
    }) + seq![
        Teardown::Program,
        Teardown::VertexArray,
        Teardown::Framebuffer,
        Teardown::Texture,
        Teardown::MemoryObject,
        Teardown::LeaveContext,
        Teardown::Pbuffer,
        Teardown::Context,
        Teardown::Display,
        Teardown::Fence,
        Teardown::Semaphore,
        Teardown::ReadySemaphore,
        Teardown::CommandPool,
        Teardown::Image,
        Teardown::Memory,
    ]
}

impl<L> VdpauVulkanBridge<L> {
    /// The steps of taking the bridge down, in order.
    pub fn teardown_steps(&self) -> (steps: Vec<Teardown>)
        ensures
            steps@ == teardown(self.in_flight is Some, self.vdpau_device is Some),
    {
        let mut steps: Vec<Teardown> = Vec::new();
        steps.push(Teardown::WaitVulkan);
        steps.push(Teardown::WaitOpenGl);
        if self.in_flight.is_some() {
            steps.push(Teardown::Picture);
        }
        if self.vdpau_device.is_some() {
            steps.push(Teardown::VdpauSetup);
        }
        steps.push(Teardown::Program);
        steps.push(Teardown::VertexArray);
        steps.push(Teardown::Framebuffer);
        steps.push(Teardown::Texture);
        steps.push(Teardown::MemoryObject);
        steps.push(Teardown::LeaveContext);
        steps.push(Teardown::Pbuffer);
        steps.push(Teardown::Context);
        steps.push(Teardown::Display);
        steps.push(Teardown::Fence);
        steps.push(Teardown::Semaphore);
        steps.push(Teardown::ReadySemaphore);
        steps.push(Teardown::CommandPool);
        steps.push(Teardown::Image);
        steps.push(Teardown::Memory);
        assert(steps@ =~= teardown(self.in_flight is Some, self.vdpau_device is Some));
        steps
    }
}

// ───────────────────── laws ─────────────────────

/// A search asks the slots in order, each once, up to the first that is not busy, and
/// none behind it.
pub proof fn law_slots_are_asked_once_in_order(
    s: SlotSearch,
    says: spec_fn(usize) -> SlotAnswer,
)
    requires
        s.asked <= s.slots,
    ensures
        ({
            let q = s.questions(says);
            &&& s.upcoming() is None <==> q.len() == 0
            &&& s.asked + q.len() <= s.slots
            &&& forall|i: int| 0 <= i < q.len() ==> #[trigger] q[i] == s.asked + i
            &&& forall|i: int| 0 <= i < q.len() - 1 ==> says(#[trigger] q[i]) == SlotAnswer::Busy
            &&& 0 < q.len() < s.slots - s.asked ==> says(q.last()) != SlotAnswer::Busy
        }),
    decreases s.slots - s.asked,
{
    if let Some(slot) = s.upcoming() {
        let next = s.after(says(slot));
        law_slots_are_asked_once_in_order(next, says);
        let rest = next.questions(says);
        let q = s.questions(says);
        assert(q == seq![slot] + rest);
        assert(q.last() == if rest.len() > 0 { rest.last() } else { slot });
        assert forall|i: int| 0 <= i < q.len() implies #[trigger] q[i] == s.asked + i by {
            if i > 0 {
                assert(q[i] == rest[i - 1]);
            }
        }
        assert forall|i: int| 0 <= i < q.len() - 1 implies says(#[trigger] q[i])
            == SlotAnswer::Busy by {
            if i > 0 {
                assert(q[i] == rest[i - 1]);
            }
        }
    }
}

/// Only the first drawing waits for the shared image: the semaphore that says that it is
/// ready is signalled once.
pub proof fn law_readiness_is_awaited_once<L>(b: VdpauVulkanBridge<L>)
    ensures
        b.drawing().1 == !b.ready_awaited,
        !b.drawing().0.drawing().1,
        b.drawing().0.drawing().0 == b.drawing().0,
{
}

/// A copy leaves the output in the state in which it found it, whatever that was:
/// the renderer never sees the copy.
pub proof fn law_a_copy_restores_the_output(sampled: bool, b: (Barrier, Barrier))
    requires
        b.0 == (Barrier { from: resting_state(sampled), to: copy_state() }),
        b.1 == (Barrier { from: copy_state(), to: resting_state(sampled) }),
    ensures
        b.0.to == b.1.from,
        b.1.to == b.0.from,
{
}

/// A picture that a copy still reads is never let go: until the copy is done the
/// bridge is not free, and holds it.
pub proof fn law_a_picture_is_held_until_it_is_copied<L>(b: VdpauVulkanBridge<L>)
    requires
        b.in_flight is Some,
    ensures
        b.polled(false) == (b, false),
        b.polled(true).0.in_flight is None,
{
}

/// Once the bridge has failed no picture is bridged again: every one is copied.
pub proof fn law_a_failed_bridge_is_not_tried_again(
    p: BridgePool,
    vdpau: bool,
    width: u32,
    height: u32,
    max_dim: u32,
)
    requires
        p.disabled,
    ensures
        !p.takes(vdpau, width, height, max_dim),
        p.failed().disabled,
        p.failed().slots == 0,
{
}

/// A picture is bridged exactly where it can be: through VDPAU, of sides that are not empty
/// and that the adapter takes, by a bridge that has not failed. Bridges that are there for
/// its size are asked, and for another size new ones are built from the first.
pub proof fn law_pictures_are_bridged_where_they_can_be(
    p: BridgePool,
    vdpau: bool,
    width: u32,
    height: u32,
    max_dim: u32,
)
    ensures
        ({
            let (next, step) = p.begun(vdpau, width, height, max_dim);
            let can = vdpau && !p.disabled && width != 0 && height != 0 && width <= max_dim
                && height <= max_dim;
            let there = p.slots != 0 && width == p.width && height == p.height;
            &&& step == VdpauStep::Fallback <==> !can
            &&& step == VdpauStep::Poll <==> can && there
            &&& step == VdpauStep::Build <==> can && !there
            &&& step != VdpauStep::Build ==> next == p
            &&& step == VdpauStep::Build ==> next.slots == 0 && next.width == width && next.height
                == height
            &&& next == BridgePool {
                slots: next.slots,
                width: next.width,
                height: next.height,
                ..p
            }
        }),
{
}

/// The pool after `n` bridges have been built one after the other, and what to do next.
pub open spec fn after_builds(p: BridgePool, n: nat) -> (BridgePool, VdpauStep)
    decreases n,
{
    if n == 0 {
        (p, VdpauStep::Build)
    } else {
        after_builds(p, (n - 1) as nat).0.built(true)
    }
}

/// Four bridges are built, and then the pool is asked; a bridge that cannot be built ends
/// bridging at any of them.
pub proof fn law_four_bridges_make_a_pool(p: BridgePool, n: nat)
    requires
        p.slots == 0,
        !p.disabled,
        n <= 4,
    ensures
        after_builds(p, n).0.slots == n,
        !after_builds(p, n).0.disabled,
        after_builds(p, n).0.width == p.width && after_builds(p, n).0.height == p.height,
        n < 4 ==> after_builds(p, n).1 == VdpauStep::Build,
        n == 4 ==> after_builds(p, n).1 == VdpauStep::Poll && after_builds(p, n).0.busy_drops == 0,
        after_builds(p, n).0.built(false).1 == VdpauStep::Fallback,
        after_builds(p, n).0.built(false).0.disabled,
    decreases n,
{
    if n > 0 {
        law_four_bridges_make_a_pool(p, (n - 1) as nat);
    }
}

/// A picture goes to the bridge that is free. While none is, it is dropped and counted, and
/// the user is told at the first and at every hundred and twentieth; a failure ends bridging.
pub proof fn law_busy_bridges_drop_pictures(p: BridgePool, slot: usize, n: nat)
    requires
        p.busy_drops < u64::MAX - 1,
    ensures
        p.asked(PollOutcome::Ready(slot)) == (p, VdpauStep::Copy(slot)),
        p.asked(PollOutcome::Failed).1 == VdpauStep::Fallback && p.asked(
            PollOutcome::Failed,
        ).0.disabled,
        ({
            let (next, step) = p.asked(PollOutcome::AllBusy);
            &&& next == BridgePool { busy_drops: next.busy_drops, ..p }
            &&& next.busy_drops == p.busy_drops + 1
            &&& step matches VdpauStep::Dropped { tell }
            &&& p.busy_drops == 0 ==> tell
            &&& p.busy_drops + 1 == 120 * n ==> tell
            &&& tell ==> p.busy_drops == 0 || (p.busy_drops + 1) % 120 == 0
        }),
{
    if p.busy_drops + 1 == 120 * n {
        vstd::arithmetic::div_mod::lemma_mod_multiples_basic(n as int, 120);
        assert(n * 120 == 120 * n);
    }
}

/// What is done to the output fits its layout: it is read by the shader, drawn on or copied
/// to, each in a layout of its own, and once it has been drawn from it rests as what the
/// shader reads.
pub proof fn law_states_fit_their_layouts(sampled: bool)
    ensures
        resting_state(sampled).layout == Layout::ShaderReadOnly <==> sampled,
        resting_state(sampled).layout == Layout::ColorAttachment <==> !sampled,
        resting_state(sampled).access == Access::ShaderRead <==> sampled,
        resting_state(sampled).access == Access::ColorAttachmentWrite <==> !sampled,
        resting_state(sampled).stage == Stage::FragmentShader <==> sampled,
        resting_state(sampled).stage == Stage::ColorAttachmentOutput <==> !sampled,
        copy_state().layout == Layout::TransferDst,
        copy_state().access == Access::TransferWrite,
        copy_state().stage == Stage::Transfer,
{
}

/// Whether `a` comes before `b` in `steps`.
pub open spec fn comes_before(steps: Seq<Teardown>, a: Teardown, b: Teardown) -> bool {
    exists|i: int, j: int|
        0 <= i < j < steps.len() && #[trigger] steps[i] == a && #[trigger] steps[j] == b
}

/// Taking down waits for both sides first, takes each thing down once, and what uses a
/// thing before the thing: a picture before the device it is of, what OpenGL made before its
/// context, the context before the display, and the image before its memory. A picture and a
/// device are let go of exactly where they are held.
pub proof fn law_taking_down_goes_from_users_to_used(in_flight: bool, set_up: bool)
    ensures
        ({
            let t = teardown(in_flight, set_up);
            &&& t.no_duplicates()
            &&& t[0] == Teardown::WaitVulkan && t[1] == Teardown::WaitOpenGl
            &&& t.contains(Teardown::Picture) <==> in_flight
            &&& t.contains(Teardown::VdpauSetup) <==> set_up
            &&& in_flight && set_up ==> comes_before(t, Teardown::Picture, Teardown::VdpauSetup)
            &&& set_up ==> comes_before(t, Teardown::VdpauSetup, Teardown::LeaveContext)
            &&& comes_before(t, Teardown::Program, Teardown::LeaveContext)
            &&& comes_before(t, Teardown::VertexArray, Teardown::LeaveContext)
            &&& comes_before(t, Teardown::Framebuffer, Teardown::Texture)
            &&& comes_before(t, Teardown::Texture, Teardown::MemoryObject)
            &&& comes_before(t, Teardown::MemoryObject, Teardown::LeaveContext)
            &&& comes_before(t, Teardown::LeaveContext, Teardown::Pbuffer)
            &&& comes_before(t, Teardown::LeaveContext, Teardown::Context)
            &&& comes_before(t, Teardown::Pbuffer, Teardown::Display)
            &&& comes_before(t, Teardown::Context, Teardown::Display)
            &&& comes_before(t, Teardown::MemoryObject, Teardown::Memory)
            &&& comes_before(t, Teardown::Image, Teardown::Memory)
            &&& t.contains(Teardown::Fence) && t.contains(Teardown::Semaphore) && t.contains(
                Teardown::ReadySemaphore,
            ) && t.contains(Teardown::CommandPool)
        }),
{
    let t = teardown(in_flight, set_up);
    let k: int = 2 + (if in_flight {
        1int
    } else {
        0
    }) + (if set_up {
        1int
    } else {
        0
    });
    assert(t.len() == k + 15);
    if in_flight {
        assert(t[2] == Teardown::Picture);
    }
    if set_up {
        assert(t[k - 1] == Teardown::VdpauSetup);
    }
    assert(t[k] == Teardown::Program);
    assert(t[k + 1] == Teardown::VertexArray);
    assert(t[k + 2] == Teardown::Framebuffer);
    assert(t[k + 3] == Teardown::Texture);
    assert(t[k + 4] == Teardown::MemoryObject);
    assert(t[k + 5] == Teardown::LeaveContext);
    assert(t[k + 6] == Teardown::Pbuffer);
    assert(t[k + 7] == Teardown::Context);
    assert(t[k + 8] == Teardown::Display);
    assert(t[k + 9] == Teardown::Fence);
    assert(t[k + 10] == Teardown::Semaphore);
    assert(t[k + 11] == Teardown::ReadySemaphore);
    assert(t[k + 12] == Teardown::CommandPool);
    assert(t[k + 13] == Teardown::Image);
    assert(t[k + 14] == Teardown::Memory);
}

/// A bridge without a picture is free, and stays as it is; one whose copy is done becomes
/// free, and lets go of the picture alone.
pub proof fn law_a_bridge_is_free_when_it_holds_nothing<L>(b: VdpauVulkanBridge<L>, copied: bool)
    ensures
        b.in_flight is None ==> b.polled(copied) == (b, true),
        b.polled(copied).1 <==> b.polled(copied).0.in_flight is None,
        b.polled(true) == (VdpauVulkanBridge { in_flight: None, ..b }, true),
{
}

/// OpenGL is set up for a device once, and again only for another device or another entry
/// point, after the setup before has been taken down.
pub proof fn law_a_device_is_set_up_once<L>(b: VdpauVulkanBridge<L>, next: (u32, usize))
    ensures
        b.vdpau_device == Some(next) <==> b.setup_for(next) == VdpauSetup::Keep,
        b.vdpau_device is None <==> b.setup_for(next) == VdpauSetup::Init,
        (VdpauVulkanBridge { vdpau_device: Some(next), ..b }).setup_for(next) == VdpauSetup::Keep,
{
}

} // verus!
