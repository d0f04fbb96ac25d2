//! The stages of setting up graphics: what comes after what, what a failure at a
//! stage says, and what is undone then.
//!
//! A stage is a call that the caller makes. Each kind of set-up has its stages, of
//! which `following` gives the order; `fail` says what a stage that did not succeed
//! leads to.

use vstd::prelude::*;

verus! {

/// The kind of a failure.
#[derive(Clone, Copy, Debug, PartialEq, Eq, Structural)]
pub enum FailureKind {
    /// What was asked for makes no sense.
    Invalid,
    /// The system cannot do it.
    Unsupported,
    /// The system failed to do it.
    Other,
}

/// A resource that a failed stage leaves to be released.
#[derive(Clone, Copy, Debug, PartialEq, Eq, Structural)]
pub enum Resource {
    /// The connection to the X server.
    Display,
    /// The GLX context.
    Context,
    /// The GLX pixel buffer.
    Pbuffer,
    /// The mapping of a picture into OpenGL.
    Mapping,
    /// The texture on the luma plane.
    YTexture,
    /// The texture on the chroma plane.
    UvTexture,
    VertexShader,
    FragmentShader,
    ShaderProgram,
}

/// A failure at a stage.
#[derive(Debug)]
pub struct StageFailure {
    pub kind: FailureKind,
    pub message: String,
    /// What is to be released, in this order.
    pub release: Vec<Resource>,
}

/// `head`, the detail if it is told, and `tail`.
pub open spec fn worded(
    head: Seq<char>,
    told: bool,
    tail: Seq<char>,
    detail: Seq<char>,
) -> Seq<char> {
    if told {
        head + detail + tail
    } else {
        head
    }
}

/// `head`, the detail if it is told, and `tail`.
fn word(head: &str, told: bool, tail: &str, detail: &str) -> (s: String)
    ensures
        s@ == worded(head@, told, tail@, detail@),
{
    let mut s = String::new();
    s.append(head);
    if told {
        s.append(detail);
        s.append(tail);
    }
    assert(s@ == worded(head@, told, tail@, detail@));
    s
}

/// A stage of building a bridge from VDPAU to a texture.
#[derive(Clone, Copy, Debug, PartialEq, Eq, Structural)]
pub enum BuildStage {
    /// The pictures are not empty.
    Dimensions,
    /// The renderer draws through Vulkan.
    HalDevice,
    /// Its queue is a Vulkan queue.
    HalQueue,
    /// The output texture is a Vulkan image.
    HalTexture,
    /// Memory can be shared through file descriptors.
    MemoryFdExtension,
    /// The image that OpenGL draws on is made.
    CreateImage,
    /// There is memory on the device for it.
    MemoryType,
    /// The memory is allocated.
    AllocateMemory,
    /// The image gets the memory.
    BindMemory,
    /// The command pool is made.
    CommandPool,
    /// The command buffers are made: one readies the image, the other copies.
    CommandBuffer,
    /// The fence on the copy is made.
    Fence,
    /// The semaphore that OpenGL signals is made.
    Semaphore,
    /// The semaphore that Vulkan signals when the image is ready is made.
    ReadySemaphore,
    /// The commands that ready the image start.
    BeginInit,
    /// They end.
    EndInit,
    /// They are submitted, and signal that semaphore; nobody waits for them here.
    SubmitInit,
    /// The memory has a file descriptor.
    MemoryFd,
    /// Xlib is loaded.
    OpenXlib,
    /// GLX is loaded.
    OpenGlx,
    /// The X server answers.
    OpenDisplay,
    /// There is a framebuffer configuration for pixel buffers.
    ChooseConfig,
    /// The GLX context is made.
    CreateContext,
    /// The GLX pixel buffer is made.
    CreatePbuffer,
    /// The context is current.
    MakeCurrent,
    /// OpenGL has the extensions that the bridge needs.
    Extensions,
    /// Their entry points are there.
    EntryPoints,
    /// OpenGL has an object for the memory.
    MemoryObject,
    /// The object is marked as one image's own, as the memory is; drawing would not
    /// reach the image otherwise.
    DedicateMemory,
    /// OpenGL has taken over the memory.
    ImportMemory,
    /// OpenGL has a texture to draw on.
    OutputTexture,
    /// The texture lies in the memory.
    TextureStorage,
    /// OpenGL has a framebuffer.
    Framebuffer,
    /// The framebuffer can be drawn on.
    FramebufferComplete,
    /// The shaders are built.
    Program,
    /// OpenGL has a vertex array.
    VertexArray,
}

impl BuildStage {
    /// How many stages come before this one.
    pub open spec fn place(self) -> int {
        match self {
            BuildStage::Dimensions => 0,
            BuildStage::HalDevice => 1,
            BuildStage::HalQueue => 2,
            BuildStage::HalTexture => 3,
            BuildStage::MemoryFdExtension => 4,
            BuildStage::CreateImage => 5,
            BuildStage::MemoryType => 6,
            BuildStage::AllocateMemory => 7,
            BuildStage::BindMemory => 8,
            BuildStage::CommandPool => 9,
            BuildStage::CommandBuffer => 10,
            BuildStage::Fence => 11,
            BuildStage::Semaphore => 12,
            BuildStage::ReadySemaphore => 13,
            BuildStage::BeginInit => 14,
            BuildStage::EndInit => 15,
            BuildStage::SubmitInit => 16,
            BuildStage::MemoryFd => 17,
            BuildStage::OpenXlib => 18,
            BuildStage::OpenGlx => 19,
            BuildStage::OpenDisplay => 20,
            BuildStage::ChooseConfig => 21,
            BuildStage::CreateContext => 22,
            BuildStage::CreatePbuffer => 23,
            BuildStage::MakeCurrent => 24,
            BuildStage::Extensions => 25,
            BuildStage::EntryPoints => 26,
            BuildStage::MemoryObject => 27,
            BuildStage::DedicateMemory => 28,
            BuildStage::ImportMemory => 29,
            BuildStage::OutputTexture => 30,
            BuildStage::TextureStorage => 31,
            BuildStage::Framebuffer => 32,
            BuildStage::FramebufferComplete => 33,
            BuildStage::Program => 34,
            BuildStage::VertexArray => 35,
        }
    }

    /// The kind of a failure at this stage.
    pub open spec fn kind(self) -> FailureKind {
        match self {
            BuildStage::Dimensions => FailureKind::Invalid,
            BuildStage::HalDevice => FailureKind::Unsupported,
            BuildStage::HalQueue => FailureKind::Unsupported,
            BuildStage::HalTexture => FailureKind::Unsupported,
            BuildStage::MemoryFdExtension => FailureKind::Unsupported,
            BuildStage::MemoryType => FailureKind::Unsupported,
            BuildStage::OpenXlib => FailureKind::Unsupported,
            BuildStage::OpenGlx => FailureKind::Unsupported,
            BuildStage::OpenDisplay => FailureKind::Unsupported,
            BuildStage::ChooseConfig => FailureKind::Unsupported,
            BuildStage::CreateContext => FailureKind::Unsupported,
            BuildStage::CreatePbuffer => FailureKind::Unsupported,
            BuildStage::MakeCurrent => FailureKind::Unsupported,
            BuildStage::Extensions => FailureKind::Unsupported,
            BuildStage::EntryPoints => FailureKind::Unsupported,
            _ => FailureKind::Other,
        }
    }

    /// What a failure at this stage says; `detail` is what the system said.
    pub open spec fn failure(self, detail: Seq<char>) -> Seq<char> {
        match self {
            BuildStage::Dimensions => worded(
                "VDPAU Vulkan bridge requires non-zero dimensions"@,
                false,
                ""@,
                detail,
            ),
            BuildStage::HalDevice => worded(
                "VDPAU GPU bridge requires the wgpu Vulkan backend"@,
                false,
                ""@,
                detail,
            ),
            BuildStage::HalQueue => worded(
                "VDPAU GPU bridge requires the wgpu Vulkan queue"@,
                false,
                ""@,
                detail,
            ),
            BuildStage::HalTexture => worded(
                "VDPAU GPU bridge requires a Vulkan wgpu texture"@,
                false,
                ""@,
                detail,
            ),
            BuildStage::MemoryFdExtension => worded(
                "wgpu Vulkan device did not enable VK_KHR_external_memory_fd"@,
                false,
                ""@,
                detail,
            ),
            BuildStage::CreateImage => worded("VDPAU bridge vkCreateImage: "@, true, ""@, detail),
            BuildStage::MemoryType => worded(
                "no device-local memory type for VDPAU bridge image"@,
                false,
                ""@,
                detail,
            ),
            BuildStage::AllocateMemory => worded(
                "VDPAU bridge vkAllocateMemory: "@,
                true,
                ""@,
                detail,
            ),
            BuildStage::BindMemory => worded(
                "VDPAU bridge vkBindImageMemory: "@,
                true,
                ""@,
                detail,
            ),
            BuildStage::CommandPool => worded(
                "VDPAU bridge vkCreateCommandPool: "@,
                true,
                ""@,
                detail,
            ),
            BuildStage::CommandBuffer => worded(
                "VDPAU bridge vkAllocateCommandBuffers: "@,
                true,
                ""@,
                detail,
            ),
            BuildStage::Fence => worded("VDPAU bridge vkCreateFence: "@, true, ""@, detail),
            BuildStage::Semaphore => worded("VDPAU bridge vkCreateSemaphore: "@, true, ""@, detail),
            BuildStage::ReadySemaphore => worded(
                "VDPAU bridge vkCreateSemaphore: "@,
                true,
                ""@,
                detail,
            ),
            BuildStage::BeginInit => worded(
                "VDPAU bridge begin init command: "@,
                true,
                ""@,
                detail,
            ),
            BuildStage::EndInit => worded("VDPAU bridge end init command: "@, true, ""@, detail),
            BuildStage::SubmitInit => worded(
                "VDPAU bridge submit init command: "@,
                true,
                ""@,
                detail,
            ),
            BuildStage::MemoryFd => worded("VDPAU bridge vkGetMemoryFdKHR: "@, true, ""@, detail),
            BuildStage::OpenXlib => worded("VDPAU bridge Xlib unavailable: "@, true, ""@, detail),
            BuildStage::OpenGlx => worded("VDPAU bridge GLX unavailable: "@, true, ""@, detail),
            BuildStage::OpenDisplay => worded(
                "VDPAU bridge could not open X11 display"@,
                false,
                ""@,
                detail,
            ),
            BuildStage::ChooseConfig => worded(
                "VDPAU bridge found no GLX pbuffer framebuffer config"@,
                false,
                ""@,
                detail,
            ),
            BuildStage::CreateContext => worded(
                "VDPAU bridge could not create GLX context"@,
                false,
                ""@,
                detail,
            ),
            BuildStage::CreatePbuffer => worded(
                "VDPAU bridge could not create GLX pbuffer"@,
                false,
                ""@,
                detail,
            ),
            BuildStage::MakeCurrent => worded(
                "VDPAU bridge could not make GLX context current"@,
                false,
                ""@,
                detail,
            ),
            BuildStage::Extensions => worded(
                "VDPAU bridge requires "@,
                true,
                " in the NVIDIA GLX context"@,
                detail,
            ),
            BuildStage::EntryPoints => worded("missing GL entry point "@, true, ""@, detail),
            BuildStage::MemoryObject => worded(
                "VDPAU bridge glCreateMemoryObjectsEXT returned zero"@,
                false,
                ""@,
                detail,
            ),
            BuildStage::DedicateMemory => worded(""@, true, ""@, detail),
            BuildStage::ImportMemory => worded(""@, true, ""@, detail),
            BuildStage::OutputTexture => worded(
                "VDPAU bridge create GL output texture: "@,
                true,
                ""@,
                detail,
            ),
            BuildStage::TextureStorage => worded(""@, true, ""@, detail),
            BuildStage::Framebuffer => worded(
                "VDPAU bridge create framebuffer: "@,
                true,
                ""@,
                detail,
            ),
            BuildStage::FramebufferComplete => worded(
                "VDPAU bridge external-memory framebuffer is incomplete"@,
                false,
                ""@,
                detail,
            ),
            BuildStage::Program => worded(""@, true, ""@, detail),
            BuildStage::VertexArray => worded("VDPAU bridge create VAO: "@, true, ""@, detail),
        }
    }

    /// What a failure at this stage leaves to be released, in this order.
    pub open spec fn releases(self) -> Seq<Resource> {
        match self {
            BuildStage::ChooseConfig => seq![Resource::Display],
            BuildStage::CreateContext => seq![Resource::Display],
            BuildStage::CreatePbuffer => seq![Resource::Context, Resource::Display],
            BuildStage::MakeCurrent => seq![
                Resource::Pbuffer,
                Resource::Context,
                Resource::Display,
            ],
            _ => Seq::empty(),
        }
    }

    /// The first stage.
    pub fn first() -> (s: BuildStage)
        ensures
            s.place() == 0,
    {
        BuildStage::Dimensions
    }

    /// The stage behind this one; `None` behind the last.
    pub fn following(self) -> (next: Option<BuildStage>)
        ensures
            next is None <==> self.place() == 35,
            next matches Some(s) ==> s.place() == self.place() + 1,
    {
        match self {
            BuildStage::Dimensions => Some(BuildStage::HalDevice),
            BuildStage::HalDevice => Some(BuildStage::HalQueue),
            BuildStage::HalQueue => Some(BuildStage::HalTexture),
            BuildStage::HalTexture => Some(BuildStage::MemoryFdExtension),
            BuildStage::MemoryFdExtension => Some(BuildStage::CreateImage),
            BuildStage::CreateImage => Some(BuildStage::MemoryType),
            BuildStage::MemoryType => Some(BuildStage::AllocateMemory),
            BuildStage::AllocateMemory => Some(BuildStage::BindMemory),
            BuildStage::BindMemory => Some(BuildStage::CommandPool),
            BuildStage::CommandPool => Some(BuildStage::CommandBuffer),
            BuildStage::CommandBuffer => Some(BuildStage::Fence),
            BuildStage::Fence => Some(BuildStage::Semaphore),
            BuildStage::Semaphore => Some(BuildStage::ReadySemaphore),
            BuildStage::ReadySemaphore => Some(BuildStage::BeginInit),
            BuildStage::BeginInit => Some(BuildStage::EndInit),
            BuildStage::EndInit => Some(BuildStage::SubmitInit),
            BuildStage::SubmitInit => Some(BuildStage::MemoryFd),
            BuildStage::MemoryFd => Some(BuildStage::OpenXlib),
            BuildStage::OpenXlib => Some(BuildStage::OpenGlx),
            BuildStage::OpenGlx => Some(BuildStage::OpenDisplay),
            BuildStage::OpenDisplay => Some(BuildStage::ChooseConfig),
            BuildStage::ChooseConfig => Some(BuildStage::CreateContext),
            BuildStage::CreateContext => Some(BuildStage::CreatePbuffer),
            BuildStage::CreatePbuffer => Some(BuildStage::MakeCurrent),
            BuildStage::MakeCurrent => Some(BuildStage::Extensions),
            BuildStage::Extensions => Some(BuildStage::EntryPoints),
            BuildStage::EntryPoints => Some(BuildStage::MemoryObject),
            BuildStage::MemoryObject => Some(BuildStage::DedicateMemory),
            BuildStage::DedicateMemory => Some(BuildStage::ImportMemory),
            BuildStage::ImportMemory => Some(BuildStage::OutputTexture),
            BuildStage::OutputTexture => Some(BuildStage::TextureStorage),
            BuildStage::TextureStorage => Some(BuildStage::Framebuffer),
            BuildStage::Framebuffer => Some(BuildStage::FramebufferComplete),
            BuildStage::FramebufferComplete => Some(BuildStage::Program),
            BuildStage::Program => Some(BuildStage::VertexArray),
            BuildStage::VertexArray => None,
        }
    }

    /// A failure at this stage; `detail` is what the system said.
    pub fn fail(self, detail: &str) -> (f: StageFailure)
        ensures
            f.kind == self.kind(),
            f.message@ == self.failure(detail@),
            f.release@ == self.releases(),
    {
        let kind = match self {
            BuildStage::Dimensions => FailureKind::Invalid,
            BuildStage::HalDevice => FailureKind::Unsupported,
            BuildStage::HalQueue => FailureKind::Unsupported,
            BuildStage::HalTexture => FailureKind::Unsupported,
            BuildStage::MemoryFdExtension => FailureKind::Unsupported,
            BuildStage::MemoryType => FailureKind::Unsupported,
            BuildStage::OpenXlib => FailureKind::Unsupported,
            BuildStage::OpenGlx => FailureKind::Unsupported,
            BuildStage::OpenDisplay => FailureKind::Unsupported,
            BuildStage::ChooseConfig => FailureKind::Unsupported,
            BuildStage::CreateContext => FailureKind::Unsupported,
            BuildStage::CreatePbuffer => FailureKind::Unsupported,
            BuildStage::MakeCurrent => FailureKind::Unsupported,
            BuildStage::Extensions => FailureKind::Unsupported,
            BuildStage::EntryPoints => FailureKind::Unsupported,
            _ => FailureKind::Other,
        };
        let message = match self {
            BuildStage::Dimensions => word(
                "VDPAU Vulkan bridge requires non-zero dimensions",
                false,
                "",
                detail,
            ),
            BuildStage::HalDevice => word(
                "VDPAU GPU bridge requires the wgpu Vulkan backend",
                false,
                "",
                detail,
            ),
            BuildStage::HalQueue => word(
                "VDPAU GPU bridge requires the wgpu Vulkan queue",
                false,
                "",
                detail,
            ),
            BuildStage::HalTexture => word(
                "VDPAU GPU bridge requires a Vulkan wgpu texture",
                false,
                "",
                detail,
            ),
            BuildStage::MemoryFdExtension => word(
                "wgpu Vulkan device did not enable VK_KHR_external_memory_fd",
                false,
                "",
                detail,
            ),
            BuildStage::CreateImage => word("VDPAU bridge vkCreateImage: ", true, "", detail),
            BuildStage::MemoryType => word(
                "no device-local memory type for VDPAU bridge image",
                false,
                "",
                detail,
            ),
            BuildStage::AllocateMemory => word("VDPAU bridge vkAllocateMemory: ", true, "", detail),
            BuildStage::BindMemory => word("VDPAU bridge vkBindImageMemory: ", true, "", detail),
            BuildStage::CommandPool => word("VDPAU bridge vkCreateCommandPool: ", true, "", detail),
            BuildStage::CommandBuffer => word(
                "VDPAU bridge vkAllocateCommandBuffers: ",
                true,
                "",
                detail,
            ),
            BuildStage::Fence => word("VDPAU bridge vkCreateFence: ", true, "", detail),
            BuildStage::Semaphore => word("VDPAU bridge vkCreateSemaphore: ", true, "", detail),
            BuildStage::ReadySemaphore => word(
                "VDPAU bridge vkCreateSemaphore: ",
                true,
                "",
                detail,
            ),
            BuildStage::BeginInit => word("VDPAU bridge begin init command: ", true, "", detail),
            BuildStage::EndInit => word("VDPAU bridge end init command: ", true, "", detail),
            BuildStage::SubmitInit => word("VDPAU bridge submit init command: ", true, "", detail),
            BuildStage::MemoryFd => word("VDPAU bridge vkGetMemoryFdKHR: ", true, "", detail),
            BuildStage::OpenXlib => word("VDPAU bridge Xlib unavailable: ", true, "", detail),
            BuildStage::OpenGlx => word("VDPAU bridge GLX unavailable: ", true, "", detail),
            BuildStage::OpenDisplay => word(
                "VDPAU bridge could not open X11 display",
                false,
                "",
                detail,
            ),
            BuildStage::ChooseConfig => word(
                "VDPAU bridge found no GLX pbuffer framebuffer config",
                false,
                "",
                detail,
            ),
            BuildStage::CreateContext => word(
                "VDPAU bridge could not create GLX context",
                false,
                "",
                detail,
            ),
            BuildStage::CreatePbuffer => word(
                "VDPAU bridge could not create GLX pbuffer",
                false,
                "",
                detail,
            ),
            BuildStage::MakeCurrent => word(
                "VDPAU bridge could not make GLX context current",
                false,
                "",
                detail,
            ),
            BuildStage::Extensions => word(
                "VDPAU bridge requires ",
                true,
                " in the NVIDIA GLX context",
                detail,
            ),
            BuildStage::EntryPoints => word("missing GL entry point ", true, "", detail),
            BuildStage::MemoryObject => word(
                "VDPAU bridge glCreateMemoryObjectsEXT returned zero",
                false,
                "",
                detail,
            ),
            BuildStage::DedicateMemory => word("", true, "", detail),
            BuildStage::ImportMemory => word("", true, "", detail),
            BuildStage::OutputTexture => word(
                "VDPAU bridge create GL output texture: ",
                true,
                "",
                detail,
            ),
            BuildStage::TextureStorage => word("", true, "", detail),
            BuildStage::Framebuffer => word("VDPAU bridge create framebuffer: ", true, "", detail),
            BuildStage::FramebufferComplete => word(
                "VDPAU bridge external-memory framebuffer is incomplete",
                false,
                "",
                detail,
            ),
            BuildStage::Program => word("", true, "", detail),
            BuildStage::VertexArray => word("VDPAU bridge create VAO: ", true, "", detail),
        };
        let mut release: Vec<Resource> = Vec::new();
        match self {
            BuildStage::ChooseConfig => {
                release.push(Resource::Display);
            },
            BuildStage::CreateContext => {
                release.push(Resource::Display);
            },
            BuildStage::CreatePbuffer => {
                release.push(Resource::Context);
                release.push(Resource::Display);
            },
            BuildStage::MakeCurrent => {
                release.push(Resource::Pbuffer);
                release.push(Resource::Context);
                release.push(Resource::Display);
            },
            _ => {},
        }
        StageFailure { kind, message, release }
    }
}

/// A stage of copying a picture through a bridge.
#[derive(Clone, Copy, Debug, PartialEq, Eq, Structural)]
pub enum CopyStage {
    /// The picture has the size that the bridge is for.
    Dimensions,
    /// The GLX context is current.
    MakeCurrent,
    /// OpenGL is set up for the VDPAU device.
    Setup,
    /// OpenGL has a texture for the luma plane.
    YTexture,
    /// OpenGL has a texture for the chroma plane.
    UvTexture,
    /// The textures are on the picture.
    Register,
    /// The picture is mapped, and drawing it is on its way; the first such drawing waits
    /// for the image on the device.
    Render,
    /// The command buffer is empty.
    ResetCommand,
    /// The commands of the copy start.
    BeginCopy,
    /// They end.
    EndCopy,
    /// The fence is down.
    ResetFence,
    /// The commands are submitted.
    Submit,
    /// A later look at the fence finds the copy done, and the picture is let go.
    Poll,
}

impl CopyStage {
    /// How many stages come before this one.
    pub open spec fn place(self) -> int {
        match self {
            CopyStage::Dimensions => 0,
            CopyStage::MakeCurrent => 1,
            CopyStage::Setup => 2,
            CopyStage::YTexture => 3,
            CopyStage::UvTexture => 4,
            CopyStage::Register => 5,
            CopyStage::Render => 6,
            CopyStage::ResetCommand => 7,
            CopyStage::BeginCopy => 8,
            CopyStage::EndCopy => 9,
            CopyStage::ResetFence => 10,
            CopyStage::Submit => 11,
            CopyStage::Poll => 12,
        }
    }

    /// The kind of a failure at this stage.
    pub open spec fn kind(self) -> FailureKind {
        match self {
            CopyStage::Dimensions => FailureKind::Invalid,
            _ => FailureKind::Other,
        }
    }

    /// What a failure at this stage says; `detail` is what the system said.
    pub open spec fn failure(self, detail: Seq<char>) -> Seq<char> {
        match self {
            CopyStage::Dimensions => worded(
                "VDPAU bridge/frame dimension mismatch"@,
                false,
                ""@,
                detail,
            ),
            CopyStage::MakeCurrent => worded(
                "VDPAU bridge failed to make GLX context current"@,
                false,
                ""@,
                detail,
            ),
            CopyStage::Setup => worded(""@, true, ""@, detail),
            CopyStage::YTexture => worded("VDPAU bridge create Y texture: "@, true, ""@, detail),
            CopyStage::UvTexture => worded("VDPAU bridge create UV texture: "@, true, ""@, detail),
            CopyStage::Register => worded(
                "glVDPAURegisterVideoSurfaceWithPictureStructureNV failed"@,
                false,
                ""@,
                detail,
            ),
            CopyStage::Render => worded(""@, true, ""@, detail),
            CopyStage::ResetCommand => worded(
                "VDPAU bridge reset command buffer: "@,
                true,
                ""@,
                detail,
            ),
            CopyStage::BeginCopy => worded("VDPAU bridge begin copy command: "@, true, ""@, detail),
            CopyStage::EndCopy => worded("VDPAU bridge end copy command: "@, true, ""@, detail),
            CopyStage::ResetFence => worded("VDPAU bridge reset copy fence: "@, true, ""@, detail),
            CopyStage::Submit => worded("VDPAU bridge submit copy: "@, true, ""@, detail),
            CopyStage::Poll => worded("VDPAU bridge wait copy fence: "@, true, ""@, detail),
        }
    }

    /// What a failure at this stage leaves to be released, in this order.
    pub open spec fn releases(self) -> Seq<Resource> {
        match self {
            CopyStage::UvTexture => seq![Resource::YTexture],
            CopyStage::Register => seq![Resource::YTexture, Resource::UvTexture],
            CopyStage::Render
            | CopyStage::ResetCommand
            | CopyStage::BeginCopy
            | CopyStage::EndCopy
            | CopyStage::ResetFence
            | CopyStage::Submit => seq![
                Resource::Mapping,
                Resource::YTexture,
                Resource::UvTexture,
            ],
            _ => Seq::empty(),
        }
    }

    /// The first stage.
    pub fn first() -> (s: CopyStage)
        ensures
            s.place() == 0,
    {
        CopyStage::Dimensions
    }

    /// The stage behind this one; `None` behind the last.
    pub fn following(self) -> (next: Option<CopyStage>)
        ensures
            next is None <==> self.place() == 12,
            next matches Some(s) ==> s.place() == self.place() + 1,
    {
        match self {
            CopyStage::Dimensions => Some(CopyStage::MakeCurrent),
            CopyStage::MakeCurrent => Some(CopyStage::Setup),
            CopyStage::Setup => Some(CopyStage::YTexture),
            CopyStage::YTexture => Some(CopyStage::UvTexture),
            CopyStage::UvTexture => Some(CopyStage::Register),
            CopyStage::Register => Some(CopyStage::Render),
            CopyStage::Render => Some(CopyStage::ResetCommand),
            CopyStage::ResetCommand => Some(CopyStage::BeginCopy),
            CopyStage::BeginCopy => Some(CopyStage::EndCopy),
            CopyStage::EndCopy => Some(CopyStage::ResetFence),
            CopyStage::ResetFence => Some(CopyStage::Submit),
            CopyStage::Submit => Some(CopyStage::Poll),
            CopyStage::Poll => None,
        }
    }

    /// A failure at this stage; `detail` is what the system said.
    pub fn fail(self, detail: &str) -> (f: StageFailure)
        ensures
            f.kind == self.kind(),
            f.message@ == self.failure(detail@),
            f.release@ == self.releases(),
    {
        let kind = match self {
            CopyStage::Dimensions => FailureKind::Invalid,
            _ => FailureKind::Other,
        };
        let message = match self {
            CopyStage::Dimensions => word(
                "VDPAU bridge/frame dimension mismatch",
                false,
                "",
                detail,
            ),
            CopyStage::MakeCurrent => word(
                "VDPAU bridge failed to make GLX context current",
                false,
                "",
                detail,
            ),
            CopyStage::Setup => word("", true, "", detail),
            CopyStage::YTexture => word("VDPAU bridge create Y texture: ", true, "", detail),
            CopyStage::UvTexture => word("VDPAU bridge create UV texture: ", true, "", detail),
            CopyStage::Register => word(
                "glVDPAURegisterVideoSurfaceWithPictureStructureNV failed",
                false,
                "",
                detail,
            ),
            CopyStage::Render => word("", true, "", detail),
            CopyStage::ResetCommand => word(
                "VDPAU bridge reset command buffer: ",
                true,
                "",
                detail,
            ),
            CopyStage::BeginCopy => word("VDPAU bridge begin copy command: ", true, "", detail),
            CopyStage::EndCopy => word("VDPAU bridge end copy command: ", true, "", detail),
            CopyStage::ResetFence => word("VDPAU bridge reset copy fence: ", true, "", detail),
            CopyStage::Submit => word("VDPAU bridge submit copy: ", true, "", detail),
            CopyStage::Poll => word("VDPAU bridge wait copy fence: ", true, "", detail),
        };
        let mut release: Vec<Resource> = Vec::new();
        match self {
            CopyStage::UvTexture => {
                release.push(Resource::YTexture);
            },
            CopyStage::Register => {
                release.push(Resource::YTexture);
                release.push(Resource::UvTexture);
            },
            CopyStage::Render
            | CopyStage::ResetCommand
            | CopyStage::BeginCopy
            | CopyStage::EndCopy
            | CopyStage::ResetFence
            | CopyStage::Submit => {
                release.push(Resource::Mapping);
                release.push(Resource::YTexture);
                release.push(Resource::UvTexture);
            },
            _ => {},
        }
        StageFailure { kind, message, release }
    }
}

/// A stage of building the shaders that turn video planes into a picture.
#[derive(Clone, Copy, Debug, PartialEq, Eq, Structural)]
pub enum ProgramStage {
    /// The vertex shader is made.
    CreateVertex,
    /// It compiles.
    CompileVertex,
    /// The fragment shader is made.
    CreateFragment,
    /// It compiles.
    CompileFragment,
    /// The program is made.
    CreateProgram,
    /// It links.
    Link,
}

impl ProgramStage {
    /// How many stages come before this one.
    pub open spec fn place(self) -> int {
        match self {
            ProgramStage::CreateVertex => 0,
            ProgramStage::CompileVertex => 1,
            ProgramStage::CreateFragment => 2,
            ProgramStage::CompileFragment => 3,
            ProgramStage::CreateProgram => 4,
            ProgramStage::Link => 5,
        }
    }

    /// The kind of a failure at this stage.
    pub open spec fn kind(self) -> FailureKind {
        FailureKind::Other
    }

    /// What a failure at this stage says; `detail` is what the system said.
    pub open spec fn failure(self, detail: Seq<char>) -> Seq<char> {
        match self {
            ProgramStage::CreateVertex => worded(
                "VDPAU bridge create shader: "@,
                true,
                ""@,
                detail,
            ),
            ProgramStage::CompileVertex => worded(
                "VDPAU bridge shader compile failed: "@,
                true,
                ""@,
                detail,
            ),
            ProgramStage::CreateFragment => worded(
                "VDPAU bridge create shader: "@,
                true,
                ""@,
                detail,
            ),
            ProgramStage::CompileFragment => worded(
                "VDPAU bridge shader compile failed: "@,
                true,
                ""@,
                detail,
            ),
            ProgramStage::CreateProgram => worded(
                "VDPAU bridge create program: "@,
                true,
                ""@,
                detail,
            ),
            ProgramStage::Link => worded("VDPAU bridge program link failed: "@, true, ""@, detail),
        }
    }

    /// What a failure at this stage leaves to be released, in this order.
    pub open spec fn releases(self) -> Seq<Resource> {
        match self {
            ProgramStage::CompileVertex => seq![Resource::VertexShader],
            ProgramStage::CreateFragment => seq![Resource::VertexShader],
            ProgramStage::CompileFragment => seq![Resource::FragmentShader, Resource::VertexShader],
            ProgramStage::Link => seq![Resource::ShaderProgram],
            _ => Seq::empty(),
        }
    }

    /// The first stage.
    pub fn first() -> (s: ProgramStage)
        ensures
            s.place() == 0,
    {
        ProgramStage::CreateVertex
    }

    /// The stage behind this one; `None` behind the last.
    pub fn following(self) -> (next: Option<ProgramStage>)
        ensures
            next is None <==> self.place() == 5,
            next matches Some(s) ==> s.place() == self.place() + 1,
    {
        match self {
            ProgramStage::CreateVertex => Some(ProgramStage::CompileVertex),
            ProgramStage::CompileVertex => Some(ProgramStage::CreateFragment),
            ProgramStage::CreateFragment => Some(ProgramStage::CompileFragment),
            ProgramStage::CompileFragment => Some(ProgramStage::CreateProgram),
            ProgramStage::CreateProgram => Some(ProgramStage::Link),
            ProgramStage::Link => None,
        }
    }

    /// A failure at this stage; `detail` is what the system said.
    pub fn fail(self, detail: &str) -> (f: StageFailure)
        ensures
            f.kind == self.kind(),
            f.message@ == self.failure(detail@),
            f.release@ == self.releases(),
    {
        let kind = FailureKind::Other;
        let message = match self {
            ProgramStage::CreateVertex => word("VDPAU bridge create shader: ", true, "", detail),
            ProgramStage::CompileVertex => word(
                "VDPAU bridge shader compile failed: ",
                true,
                "",
                detail,
            ),
            ProgramStage::CreateFragment => word("VDPAU bridge create shader: ", true, "", detail),
            ProgramStage::CompileFragment => word(
                "VDPAU bridge shader compile failed: ",
                true,
                "",
                detail,
            ),
            ProgramStage::CreateProgram => word("VDPAU bridge create program: ", true, "", detail),
            ProgramStage::Link => word("VDPAU bridge program link failed: ", true, "", detail),
        };
        let mut release: Vec<Resource> = Vec::new();
        match self {
            ProgramStage::CompileVertex => {
                release.push(Resource::VertexShader);
            },
            ProgramStage::CreateFragment => {
                release.push(Resource::VertexShader);
            },
            ProgramStage::CompileFragment => {
                release.push(Resource::FragmentShader);
                release.push(Resource::VertexShader);
            },
            ProgramStage::Link => {
                release.push(Resource::ShaderProgram);
            },
            _ => {},
        }
        StageFailure { kind, message, release }
    }
}

/// A stage of setting up the window's renderer.
#[derive(Clone, Copy, Debug, PartialEq, Eq, Structural)]
pub enum WindowStage {
    /// The window has a surface to draw on.
    Surface,
    /// There is an adapter that can draw on it.
    Adapter,
    /// The adapter is opened.
    Device,
}

impl WindowStage {
    /// How many stages come before this one.
    pub open spec fn place(self) -> int {
        match self {
            WindowStage::Surface => 0,
            WindowStage::Adapter => 1,
            WindowStage::Device => 2,
        }
    }

    /// The kind of a failure at this stage.
    pub open spec fn kind(self) -> FailureKind {
        FailureKind::Other
    }

    /// What a failure at this stage says; `detail` is what the system said.
    pub open spec fn failure(self, detail: Seq<char>) -> Seq<char> {
        match self {
            WindowStage::Surface => worded("wgpu: create_surface: "@, true, ""@, detail),
            WindowStage::Adapter => worded("wgpu: no suitable adapter: "@, true, ""@, detail),
            WindowStage::Device => worded("wgpu: request_device: "@, true, ""@, detail),
        }
    }

    /// What a failure at this stage leaves to be released, in this order.
    pub open spec fn releases(self) -> Seq<Resource> {
        Seq::empty()
    }

    /// The first stage.
    pub fn first() -> (s: WindowStage)
        ensures
            s.place() == 0,
    {
        WindowStage::Surface
    }

    /// The stage behind this one; `None` behind the last.
    pub fn following(self) -> (next: Option<WindowStage>)
        ensures
            next is None <==> self.place() == 2,
            next matches Some(s) ==> s.place() == self.place() + 1,
    {
        match self {
            WindowStage::Surface => Some(WindowStage::Adapter),
            WindowStage::Adapter => Some(WindowStage::Device),
            WindowStage::Device => None,
        }
    }

    /// A failure at this stage; `detail` is what the system said.
    pub fn fail(self, detail: &str) -> (f: StageFailure)
        ensures
            f.kind == self.kind(),
            f.message@ == self.failure(detail@),
            f.release@ == self.releases(),
    {
        let kind = FailureKind::Other;
        let message = match self {
            WindowStage::Surface => word("wgpu: create_surface: ", true, "", detail),
            WindowStage::Adapter => word("wgpu: no suitable adapter: ", true, "", detail),
            WindowStage::Device => word("wgpu: request_device: ", true, "", detail),
        };
        let release: Vec<Resource> = Vec::new();
        StageFailure { kind, message, release }
    }
}

// ───────────────────── laws ─────────────────────

/// What a bridge's build holds of GLX when it comes to `stage`, in the order in
/// which it was acquired.
pub open spec fn glx_held(stage: BuildStage) -> Seq<Resource> {
    let p = stage.place();
    if p <= BuildStage::OpenDisplay.place() {
        Seq::empty()
    } else if p <= BuildStage::CreateContext.place() {
        seq![Resource::Display]
    } else if p <= BuildStage::CreatePbuffer.place() {
        seq![Resource::Display, Resource::Context]
    } else {
        seq![Resource::Display, Resource::Context, Resource::Pbuffer]
    }
}

/// A build that fails before OpenGL can be called lets go of everything that it
/// holds of GLX, the last acquired first.
pub proof fn law_a_failed_build_releases_glx(stage: BuildStage)
    requires
        stage.place() <= BuildStage::MakeCurrent.place(),
    ensures
        stage.releases() == glx_held(stage).reverse(),
{
    assert(stage.releases() =~= glx_held(stage).reverse());
}

/// A failure that tells what the system said tells it word for word, between what stands
/// before it and behind it; one that does not is worded the same whatever was said.
pub proof fn law_details_are_told_word_for_word(
    head: Seq<char>,
    tail: Seq<char>,
    told: bool,
    a: Seq<char>,
    b: Seq<char>,
)
    ensures
        head.is_prefix_of(worded(head, told, tail, a)),
        told ==> worded(head, told, tail, a).len() == head.len() + a.len() + tail.len(),
        told ==> worded(head, told, tail, a).subrange(
            head.len() as int,
            head.len() + a.len() as int,
        ) == a,
        told ==> tail.is_suffix_of(worded(head, told, tail, a)),
        !told ==> worded(head, told, tail, a) == worded(head, told, tail, b),
        !told ==> worded(head, told, tail, a) == head,
{
    let s = worded(head, told, tail, a);
    assert(head =~= s.subrange(0, head.len() as int));
    if told {
        assert(s.subrange(head.len() as int, head.len() + a.len() as int) =~= a);
        assert(tail =~= s.subrange(s.len() - tail.len(), s.len() as int));
    }
}

/// No two stages of a kind stand in the same place.
pub proof fn law_stages_have_their_own_place(
    a: BuildStage,
    b: BuildStage,
    c: CopyStage,
    d: CopyStage,
    e: ProgramStage,
    f: ProgramStage,
)
    ensures
        0 <= a.place() < 36,
        a.place() == b.place() ==> a == b,
        0 <= c.place() < 13,
        c.place() == d.place() ==> c == d,
        0 <= e.place() < 6,
        e.place() == f.place() ==> e == f,
{
}

/// What a copy holds of OpenGL when it comes to `stage`.
pub open spec fn copy_holds(stage: CopyStage, r: Resource) -> bool {
    let p = stage.place();
    match r {
        Resource::YTexture => p > CopyStage::YTexture.place(),
        Resource::UvTexture => p > CopyStage::UvTexture.place(),
        Resource::Mapping => p > CopyStage::Register.place(),
        _ => false,
    }
}

/// A copy that fails on its way lets go of all that it holds, each thing once, and of the
/// mapping before the textures that it is on. One that is submitted holds on to it all: the
/// device still reads it.
pub proof fn law_a_failed_copy_lets_go_of_the_picture(stage: CopyStage, r: Resource)
    ensures
        stage != CopyStage::Poll ==> (stage.releases().contains(r) <==> copy_holds(stage, r)),
        stage == CopyStage::Poll ==> stage.releases().len() == 0,
        stage.releases().no_duplicates(),
        stage.releases().contains(Resource::Mapping) ==> stage.releases()[0] == Resource::Mapping,
        CopyStage::Register.place() < CopyStage::Render.place() < CopyStage::Submit.place()
            < CopyStage::Poll.place(),
        CopyStage::ResetCommand.place() < CopyStage::BeginCopy.place()
            < CopyStage::EndCopy.place() < CopyStage::Submit.place(),
        CopyStage::ResetFence.place() < CopyStage::Submit.place(),
        CopyStage::Render.place() < CopyStage::ResetCommand.place(),
{
    let s = stage.releases();
    if stage == CopyStage::UvTexture {
        assert(s[0] == Resource::YTexture);
    } else if stage == CopyStage::Register {
        assert(s[0] == Resource::YTexture && s[1] == Resource::UvTexture);
    } else if stage.place() > CopyStage::Register.place() && stage != CopyStage::Poll {
        assert(s[0] == Resource::Mapping && s[1] == Resource::YTexture && s[2]
            == Resource::UvTexture);
    }
}

/// A build makes a thing before it uses it: the image before its memory is bound, the
/// semaphores before the commands that signal them, the display before the context and that
/// before it is current; memory is marked as one image's own before OpenGL takes it over.
pub proof fn law_a_build_makes_before_it_uses()
    ensures
        BuildStage::CreateImage.place() < BuildStage::AllocateMemory.place(),
        BuildStage::MemoryType.place() < BuildStage::AllocateMemory.place(),
        BuildStage::AllocateMemory.place() < BuildStage::BindMemory.place(),
        BuildStage::CommandPool.place() < BuildStage::CommandBuffer.place(),
        BuildStage::CommandBuffer.place() < BuildStage::BeginInit.place(),
        BuildStage::ReadySemaphore.place() < BuildStage::SubmitInit.place(),
        BuildStage::BindMemory.place() < BuildStage::BeginInit.place(),
        BuildStage::BeginInit.place() < BuildStage::EndInit.place(),
        BuildStage::EndInit.place() < BuildStage::SubmitInit.place(),
        BuildStage::AllocateMemory.place() < BuildStage::MemoryFd.place(),
        BuildStage::MemoryFd.place() < BuildStage::ImportMemory.place(),
        BuildStage::OpenDisplay.place() < BuildStage::CreateContext.place(),
        BuildStage::CreateContext.place() < BuildStage::MakeCurrent.place(),
        BuildStage::CreatePbuffer.place() < BuildStage::MakeCurrent.place(),
        BuildStage::MakeCurrent.place() < BuildStage::Extensions.place(),
        BuildStage::EntryPoints.place() < BuildStage::MemoryObject.place(),
        BuildStage::MemoryObject.place() < BuildStage::DedicateMemory.place(),
        BuildStage::DedicateMemory.place() < BuildStage::ImportMemory.place(),
        BuildStage::ImportMemory.place() < BuildStage::TextureStorage.place(),
        BuildStage::OutputTexture.place() < BuildStage::TextureStorage.place(),
        BuildStage::TextureStorage.place() < BuildStage::FramebufferComplete.place(),
        BuildStage::Framebuffer.place() < BuildStage::FramebufferComplete.place(),
{
}

/// A failed build of the shaders deletes those that were made, once each.
pub proof fn law_a_failed_program_leaves_no_shader(stage: ProgramStage)
    ensures
        stage.place() <= ProgramStage::CompileFragment.place() ==> {
            &&& stage.releases().contains(Resource::VertexShader) <==> stage.place()
                > ProgramStage::CreateVertex.place()
            &&& stage.releases().contains(Resource::FragmentShader) <==> stage.place()
                > ProgramStage::CreateFragment.place()
        },
        stage.releases().contains(Resource::ShaderProgram) <==> stage.place()
            > ProgramStage::CreateProgram.place(),
        stage.releases().no_duplicates(),
{
    let s = stage.releases();
    if s.len() > 0 {
        assert(s.contains(s[0]));
    }
    if s.len() > 1 {
        assert(s.contains(s[1]));
    }
}

} // verus!
