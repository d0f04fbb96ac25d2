use oxideplay::bridge::{
    copy_barriers, entry_point_name, find_device_local_memory_type, first_ready_slot, gl_check,
    missing_extension, BridgePool, Layout, PollOutcome, SlotAnswer, SlotSearch, Teardown, VdpauSetup,
    VdpauStep, VdpauVulkanBridge, VDPAU_BRIDGE_SLOTS,
};
use oxideplay::clock::MediaTime;
use oxideplay::media::{CodecParameters, MediaType, PixelFormat, PlayerEvent, SeekDir};
use oxideplay::planes::{
    arena_yuv420p_view, box_downsample, plane_covers_image, prepare_planes, ArenaFrame, ArenaPlane,
};
use oxideplay::renderer::{
    acquire_step, describe_adapter, letterbox, overlay_acquire_step, preferred_place, rgba_bindings,
    texture_extent, yuv_bindings, AcquireStep, BindingKind, FrameShape, PlaneUpload, Ratio, SurfaceState,
    VideoRenderer,
};
use oxideplay::stages::{
    BuildStage, CopyStage, FailureKind, ProgramStage, Resource, WindowStage,
};
use oxideplay::window::{
    is_logical_char, map_key, window_info, KeyCode, KeyEvent, LogicalKey, NamedKey, ResumeAction,
    WindowAction, WindowEvent, WinitApp,
};

fn picture<'a>(
    width: u32,
    height: u32,
    pixel_format: PixelFormat,
    planes: &[(&'a [u8], usize)],
) -> ArenaFrame<'a> {
    ArenaFrame {
        width,
        height,
        pixel_format,
        planes: planes.iter().map(|(data, stride)| ArenaPlane { data, stride: *stride }).collect(),
    }
}

#[test]
fn arena_yuv420p_view_borrows_original_planes_and_preserves_stride() {
    let mut memory = vec![0_u8; 64];
    memory[..24].iter_mut().enumerate().for_each(|(i, v)| *v = i as u8);
    let planes = [(&memory[0..24], 6), (&memory[24..32], 4), (&memory[32..40], 4)];
    let frame = picture(4, 4, PixelFormat::Yuv420P, &planes);
    let y_ptr = memory[0..24].as_ptr();
    let u_ptr = memory[24..32].as_ptr();
    let v_ptr = memory[32..40].as_ptr();

    let view = arena_yuv420p_view(&frame).expect("direct arena view");
    assert_eq!((view.width, view.height), (4, 4));
    assert_eq!((view.y_stride, view.u_stride, view.v_stride), (6, 4, 4));
    assert_eq!(view.y.as_ptr(), y_ptr);
    assert_eq!(view.u.as_ptr(), u_ptr);
    assert_eq!(view.v.as_ptr(), v_ptr);
}

#[test]
fn arena_yuv420p_view_rejects_non_yuv420p_storage() {
    let memory = vec![0_u8; 16];
    let frame = picture(2, 2, PixelFormat::Gray8, &[(&memory[0..4], 2)]);
    assert!(arena_yuv420p_view(&frame).is_none());
}

#[test]
fn arena_views_need_even_sides_and_whole_planes() {
    let memory = vec![0_u8; 64];
    let planes: [(&[u8], usize); 3] = [(&memory[0..22], 6), (&memory[24..28], 2), (&memory[32..36], 2)];
    assert!(arena_yuv420p_view(&picture(4, 4, PixelFormat::Yuv420P, &planes)).is_some());
    for (w, h) in [(0, 4), (4, 0), (3, 4), (4, 3), (8, 4)] {
        assert!(arena_yuv420p_view(&picture(w, h, PixelFormat::Yuv420P, &planes)).is_none());
    }
    let short: [(&[u8], usize); 3] = [(&memory[0..21], 6), (&memory[24..28], 2), (&memory[32..36], 2)];
    assert!(arena_yuv420p_view(&picture(4, 4, PixelFormat::Yuv420P, &short)).is_none());
    assert!(arena_yuv420p_view(&picture(4, 4, PixelFormat::Yuv420P, &planes[..2])).is_none());
}

#[test]
fn plane_coverage_needs_no_padding_behind_the_last_row() {
    assert!(plane_covers_image(&[0; 10], 6, 4, 2));
    assert!(!plane_covers_image(&[0; 9], 6, 4, 2));
    assert!(!plane_covers_image(&[0; 99], 3, 4, 2));
    assert!(!plane_covers_image(&[0; 99], 4, 4, 0));
    assert!(!plane_covers_image(&[0; 9], usize::MAX, 4, usize::MAX));
}

#[test]
fn downsampling_averages_blocks() {
    let src = [1, 3, 10, 20, 0, 5, 8, 30, 40, 0, 9, 9, 9, 9, 9];
    assert_eq!(box_downsample(&src, 5, 3, 2), vec![4, 25]);
    assert_eq!(box_downsample(&src, 5, 3, 1), src.to_vec());
    assert_eq!(box_downsample(&src, 5, 3, 0), src.to_vec());
    assert_eq!(box_downsample(&src, 5, 3, 4), Vec::<u8>::new());
    assert_eq!(box_downsample(&[7; 36], 6, 6, 3), vec![7; 4]);
    assert_eq!(box_downsample(&[0, 0, 0, 3], 2, 2, 2), vec![0]);
}

#[test]
fn pictures_that_fit_stay_as_they_are() {
    let mut warned = false;
    let p = prepare_planes(vec![1; 16], vec![2; 4], vec![3; 4], 4, 4, 4, &mut warned);
    assert_eq!((p.width, p.height), (4, 4));
    assert_eq!((p.y.len(), p.u.len(), p.v.len()), (16, 4, 4));
    assert!(p.notice.is_none() && !warned);
}

#[test]
fn large_pictures_are_shrunk_and_the_user_is_told_once() {
    let mut warned = false;
    let p = prepare_planes(vec![9; 64], vec![8; 16], vec![7; 16], 8, 8, 5, &mut warned);
    assert_eq!((p.width, p.height), (4, 4));
    assert_eq!((p.y, p.u, p.v), (vec![9; 16], vec![8; 4], vec![7; 4]));
    assert_eq!(
        p.notice.unwrap(),
        "oxideplay: source 8×8 exceeds GPU max texture dim 5; downscaling to 4×4"
    );
    assert!(warned);
    let p = prepare_planes(vec![9; 64], vec![8; 16], vec![7; 16], 8, 8, 5, &mut warned);
    assert!(p.notice.is_none() && warned);
    // Nothing is left of a very flat picture.
    let p = prepare_planes(vec![9; 8], vec![], vec![], 8, 1, 4, &mut warned);
    assert_eq!((p.width, p.height, p.y.len()), (0, 0, 0));
}

#[test]
fn shrinking_takes_the_smallest_factor() {
    let mut warned = true;
    let p = prepare_planes(vec![1; 90], vec![1; 20], vec![1; 20], 10, 9, 3, &mut warned);
    // ceil(10 / 3) = 4; 10 / 4 = 2, 9 / 4 = 2
    assert_eq!((p.width, p.height), (2, 2));
    assert_eq!((p.y.len(), p.u.len()), (4, 1));
}

#[test]
fn an_odd_column_and_row_are_left_out() {
    let mut warned = true;
    let y: Vec<u8> = (0..100).map(|i| (i / 10 / 3 * 10 + i % 10 / 3) as u8).collect();
    let p = prepare_planes(y, vec![5; 25], vec![6; 25], 10, 10, 4, &mut warned);
    // ceil(10 / 4) = 3; 10 / 3 = 3, rounded down to 2
    assert_eq!((p.width, p.height), (2, 2));
    assert_eq!((p.y, p.u, p.v), (vec![0, 1, 10, 11], vec![5], vec![6]));
}

#[test]
fn first_ready_slot_returns_none_without_blocking_when_all_slots_are_busy() {
    let mut polls = 0;
    let slot = first_ready_slot(VDPAU_BRIDGE_SLOTS, |_| {
        polls += 1;
        Ok::<bool, ()>(false)
    })
    .expect("slot poll");
    assert_eq!(slot, None);
    assert_eq!(polls, VDPAU_BRIDGE_SLOTS);
}

#[test]
fn first_ready_slot_stops_at_first_completed_slot() {
    let states = [false, false, true, true];
    let mut polls = 0;
    let slot = first_ready_slot(states.len(), |index| {
        polls += 1;
        Ok::<bool, ()>(states[index])
    })
    .expect("slot poll");
    assert_eq!(slot, Some(2));
    assert_eq!(polls, 3);
}

#[test]
fn first_ready_slot_hands_on_the_first_failure() {
    let mut polls = 0;
    let slot = first_ready_slot(4, |index| {
        polls += 1;
        if index == 1 {
            Err("fence")
        } else {
            Ok(false)
        }
    });
    assert_eq!(slot, Err("fence"));
    assert_eq!(polls, 2);
}

#[test]
fn a_search_asks_each_slot_once_and_stops_at_an_answer() {
    let (busy, ready, failed) = (SlotAnswer::Busy, SlotAnswer::Ready, SlotAnswer::Failed);
    for (says, expected) in [
        ([busy, busy, busy, busy], vec![0, 1, 2, 3]),
        ([busy, busy, ready, ready], vec![0, 1, 2]),
        ([busy, failed, ready, ready], vec![0, 1]),
        ([ready, busy, busy, busy], vec![0]),
    ] {
        let mut s = SlotSearch::new(says.len());
        let mut asked = Vec::new();
        while let Some(slot) = s.next_slot() {
            asked.push(slot);
            s.on_answer(says[slot]);
        }
        assert_eq!(asked, expected);
        assert_eq!(s.over, asked.len() < 4);
    }
    assert_eq!(SlotSearch::new(0).next_slot(), None);
}

#[test]
fn only_the_first_drawing_waits_for_the_shared_image() {
    let mut b = VdpauVulkanBridge::<u32>::new(4, 2).unwrap();
    assert!(b.on_drawing());
    assert!(!b.on_drawing());
    assert!(!b.on_drawing());
    assert_eq!(b.in_flight, None);
}

#[test]
fn the_bridge_pool_fills_polls_and_drops() {
    let mut p = BridgePool::new();
    assert_eq!(p.begin(false, 64, 64, 4096), VdpauStep::Fallback);
    assert_eq!(p.begin(true, 0, 64, 4096), VdpauStep::Fallback);
    assert_eq!(p.begin(true, 64, 5000, 4096), VdpauStep::Fallback);
    assert_eq!(p.begin(true, 64, 48, 4096), VdpauStep::Build);
    assert_eq!(p.on_built(true), VdpauStep::Build);
    assert_eq!(p.on_built(true), VdpauStep::Build);
    assert_eq!(p.on_built(true), VdpauStep::Build);
    assert_eq!(p.on_built(true), VdpauStep::Poll);
    assert_eq!(
        p.ready_notice(),
        "oxideplay: VDPAU GPU bridge active (GLX interop2 -> Vulkan, 64x48, 4 async slots)"
    );
    assert_eq!(p.begin(true, 64, 48, 4096), VdpauStep::Poll);
    assert_eq!(p.on_polled(PollOutcome::Ready(2)), VdpauStep::Copy(2));
    assert_eq!(p.on_copied(2, true), VdpauStep::Draw(2));
    for n in 1..=240_u64 {
        let tell = n == 1 || n == 120 || n == 240;
        assert_eq!(p.on_polled(PollOutcome::AllBusy), VdpauStep::Dropped { tell });
    }
    assert_eq!(
        BridgePool::busy_notice(),
        "oxideplay: all 4 VDPAU GPU slots are in flight; dropping video frame without CPU fallback"
    );
    // Another size starts over.
    assert_eq!(p.begin(true, 32, 48, 4096), VdpauStep::Build);
    assert_eq!(p.slots, 0);
}

#[test]
fn a_failed_bridge_is_given_up() {
    let mut p = BridgePool::new();
    p.begin(true, 2, 2, 4096);
    assert_eq!(p.on_built(false), VdpauStep::Fallback);
    assert_eq!(p.begin(true, 2, 2, 4096), VdpauStep::Fallback);
    let mut p = BridgePool { slots: 4, width: 2, height: 2, disabled: false, busy_drops: 0 };
    assert_eq!(p.on_polled(PollOutcome::Failed), VdpauStep::Fallback);
    assert!(p.disabled && p.slots == 0);
    let mut p = BridgePool { slots: 4, width: 2, height: 2, disabled: false, busy_drops: 0 };
    assert_eq!(p.on_copied(1, false), VdpauStep::Fallback);
    assert!(p.disabled);
}

#[test]
fn one_bridge_knows_its_size_and_device() {
    assert!(VdpauVulkanBridge::<u32>::new(0, 2).is_none());
    let mut b = VdpauVulkanBridge::<u32>::new(4, 2).unwrap();
    assert_eq!(b.dimensions(), (4, 2));
    assert!(b.accepts(4, 2) && !b.accepts(2, 4));
    assert_eq!(b.ensure_vdpau((1, 10)), VdpauSetup::Init);
    b.on_vdpau_ready((1, 10));
    assert_eq!(b.ensure_vdpau((1, 10)), VdpauSetup::Keep);
    assert_eq!(b.ensure_vdpau((1, 11)), VdpauSetup::Renew);
    assert_eq!(b.teardown_steps()[2], Teardown::VdpauSetup);
    assert_eq!(b.teardown_steps().len(), 18);
    b.on_submitted(7);
    assert_eq!(
        b.teardown_steps()[..4],
        [Teardown::WaitVulkan, Teardown::WaitOpenGl, Teardown::Picture, Teardown::VdpauSetup]
    );
    assert_eq!(b.teardown_steps().len(), 19);
    assert_eq!(VdpauVulkanBridge::<u32>::new(1, 1).unwrap().teardown_steps()[2], Teardown::Program);
}

#[test]
fn a_bridge_holds_its_picture_until_the_copy_is_done() {
    let mut b = VdpauVulkanBridge::<u32>::new(4, 2).unwrap();
    assert!(b.is_available(false));
    b.on_submitted(7);
    assert!(!b.is_available(false));
    assert_eq!(b.in_flight, Some(7));
    assert!(b.is_available(true));
    assert_eq!(b.in_flight, None);
}

#[test]
fn the_entry_points_are_looked_up_by_name() {
    assert_eq!(entry_point_name(0), "glVDPAUInitNV");
    assert_eq!(entry_point_name(2), "glVDPAURegisterVideoSurfaceWithPictureStructureNV");
    assert_eq!(entry_point_name(9), "glMemoryObjectParameterivEXT");
    assert_eq!(entry_point_name(12), "glSignalVkSemaphoreNV");
    assert_eq!(entry_point_name(13), "glWaitVkSemaphoreNV");
}

#[test]
fn a_copy_puts_the_output_back_as_it_was() {
    let mut b = VdpauVulkanBridge::<u32>::new(4, 2).unwrap();
    let (to, from) = copy_barriers(b.output_sampled);
    assert_eq!(to.from.layout, Layout::ColorAttachment);
    assert_eq!(to.to, from.from);
    assert_eq!(from.to, to.from);
    b.mark_sampled();
    let (to, from) = copy_barriers(b.output_sampled);
    assert_eq!(to.from.layout, Layout::ShaderReadOnly);
    assert_eq!(from.to, to.from);
}

#[test]
fn memory_types_are_filtered_by_bits_and_place() {
    let local = [false, true, true, true];
    assert_eq!(find_device_local_memory_type(0b1100, &local), Some(2));
    assert_eq!(find_device_local_memory_type(0b1111, &local), Some(1));
    assert_eq!(find_device_local_memory_type(0b0001, &local), None);
    assert_eq!(find_device_local_memory_type(0xffff_fff0, &local), None);
    assert_eq!(find_device_local_memory_type(1 << 31, &[true; 32]), Some(31));
}

#[test]
fn opengl_errors_are_worded_in_hexadecimal() {
    assert_eq!(gl_check(0, "x"), Ok(()));
    assert_eq!(
        gl_check(0x502, "glImportMemoryFdEXT"),
        Err("VDPAU bridge glImportMemoryFdEXT: GL error 0x502".to_string())
    );
    assert_eq!(gl_check(0xabcdef, "p").unwrap_err(), "VDPAU bridge p: GL error 0xabcdef");
}

#[test]
fn the_first_missing_extension_is_named() {
    let all: Vec<String> = [
        "GL_NV_draw_vulkan_image",
        "GL_NV_vdpau_interop",
        "GL_NV_vdpau_interop2",
        "GL_EXT_memory_object",
        "GL_EXT_memory_object_fd",
    ]
    .iter()
    .map(|s| s.to_string())
    .collect();
    assert_eq!(missing_extension(&all), None);
    assert_eq!(missing_extension(&all[..2]), Some("GL_NV_vdpau_interop2"));
    assert_eq!(missing_extension(&[]), Some("GL_NV_vdpau_interop"));
}

#[test]
fn a_build_goes_through_its_stages_in_order() {
    let mut stage = BuildStage::first();
    let mut n = 1;
    while let Some(next) = stage.following() {
        stage = next;
        n += 1;
    }
    assert_eq!(n, 36);
    assert_eq!(stage, BuildStage::VertexArray);
    assert_eq!(BuildStage::first().following(), Some(BuildStage::HalDevice));
    assert_eq!(BuildStage::MemoryObject.following(), Some(BuildStage::DedicateMemory));
    assert_eq!(BuildStage::DedicateMemory.following(), Some(BuildStage::ImportMemory));
    assert_eq!(CopyStage::first(), CopyStage::Dimensions);
    assert_eq!(CopyStage::Render.following(), Some(CopyStage::ResetCommand));
    assert_eq!(BuildStage::Semaphore.following(), Some(BuildStage::ReadySemaphore));
    assert_eq!(BuildStage::SubmitInit.following(), Some(BuildStage::MemoryFd));
    assert_eq!(CopyStage::Submit.following(), Some(CopyStage::Poll));
    assert_eq!(CopyStage::Poll.following(), None);
    assert_eq!(ProgramStage::first().following(), Some(ProgramStage::CompileVertex));
    assert_eq!(WindowStage::Device.following(), None);
}

#[test]
fn failures_are_worded_and_undone_by_stage() {
    let f = BuildStage::Dimensions.fail("");
    assert_eq!(f.kind, FailureKind::Invalid);
    assert_eq!(f.message, "VDPAU Vulkan bridge requires non-zero dimensions");
    let f = BuildStage::CreateImage.fail("ERROR_OUT_OF_DEVICE_MEMORY");
    assert_eq!(f.kind, FailureKind::Other);
    assert_eq!(f.message, "VDPAU bridge vkCreateImage: ERROR_OUT_OF_DEVICE_MEMORY");
    assert!(f.release.is_empty());
    let f = BuildStage::MakeCurrent.fail("");
    assert_eq!(f.kind, FailureKind::Unsupported);
    assert_eq!(f.release, vec![Resource::Pbuffer, Resource::Context, Resource::Display]);
    let f = BuildStage::Extensions.fail("GL_EXT_memory_object");
    assert_eq!(
        f.message,
        "VDPAU bridge requires GL_EXT_memory_object in the NVIDIA GLX context"
    );
    assert_eq!(BuildStage::Program.fail("as it is").message, "as it is");
    let f = CopyStage::UvTexture.fail("no");
    assert_eq!(f.message, "VDPAU bridge create UV texture: no");
    assert_eq!(f.release, vec![Resource::YTexture]);
    assert_eq!(CopyStage::Dimensions.fail("").kind, FailureKind::Invalid);
    let f = CopyStage::Submit.fail("lost");
    assert_eq!(f.message, "VDPAU bridge submit copy: lost");
    assert_eq!(f.release, vec![Resource::Mapping, Resource::YTexture, Resource::UvTexture]);
    let f = CopyStage::Poll.fail("lost");
    assert_eq!(f.message, "VDPAU bridge wait copy fence: lost");
    assert!(f.release.is_empty());
    let f = BuildStage::ReadySemaphore.fail("no");
    assert_eq!(f.message, "VDPAU bridge vkCreateSemaphore: no");
    let f = ProgramStage::CompileFragment.fail("log");
    assert_eq!(f.message, "VDPAU bridge shader compile failed: log");
    assert_eq!(f.release, vec![Resource::FragmentShader, Resource::VertexShader]);
    assert_eq!(WindowStage::Adapter.fail("none").message, "wgpu: no suitable adapter: none");
}

fn source(width: Option<u32>, height: Option<u32>, pixel_format: Option<PixelFormat>) -> CodecParameters {
    CodecParameters {
        media_type: MediaType::Video,
        codec_id: "c".to_string(),
        sample_rate: None,
        channels: None,
        pixel_format,
        width,
        height,
    }
}

#[test]
fn the_surface_stays_within_the_adapter() {
    let mut r = VideoRenderer::new(0, 9000, 4096, String::new());
    assert_eq!((r.surface_width, r.surface_height), (1, 4096));
    r.resize(800, 600);
    assert_eq!((r.surface_width, r.surface_height), (800, 600));
    r.resize(10_000, 0);
    assert_eq!((r.surface_width, r.surface_height), (4096, 1));
    assert_eq!(texture_extent(0, 7), (1, 7));
}

#[test]
fn source_parameters_keep_what_is_left_open() {
    let mut r = VideoRenderer::new(8, 8, 64, String::new());
    r.set_source_video_params(&source(Some(32), Some(16), Some(PixelFormat::Other(3))));
    r.set_source_video_params(&source(Some(0), None, None));
    assert_eq!((r.src_width, r.src_height), (32, 16));
    assert_eq!(r.src_format, PixelFormat::Other(3));
}

#[test]
fn arena_pictures_are_drawn_as_they_lie() {
    let memory = [0_u8; 64];
    let planes: [(&[u8], usize); 3] = [(&memory[0..24], 6), (&memory[24..32], 4), (&memory[32..40], 4)];
    let frame = picture(4, 4, PixelFormat::Yuv420P, &planes);
    let view = arena_yuv420p_view(&frame).unwrap();
    let mut r = VideoRenderer::new(8, 8, 64, String::new());
    let p = r.render_arena(&view).unwrap();
    assert!(p.new_textures);
    assert_eq!((p.width, p.height, p.y_row, p.u_row, p.v_row), (4, 4, 6, 4, 4));
    assert_eq!((p.content_width, p.content_height), (4, 4));
    assert_eq!((r.src_width, r.src_height, r.dims), (4, 4, Some((4, 4))));
    assert!(!r.render_arena(&view).unwrap().new_textures);
    r.src_width = 8;
    assert!(r.render_arena(&view).is_none());
    let mut small = VideoRenderer::new(8, 8, 3, String::new());
    assert!(small.render_arena(&view).is_none());
    let mut other = VideoRenderer::new(8, 8, 64, String::new());
    other.src_format = PixelFormat::Gray8;
    assert!(other.render_arena(&view).is_none());
}

#[test]
fn the_size_is_inferred_from_the_first_frame() {
    let mut r = VideoRenderer::new(8, 8, 64, String::new());
    assert!(!r.can_render());
    assert!(r.infer_size(FrameShape { planes: 1, stride: 16, len: 160 }).is_none());
    assert!(r.infer_size(FrameShape { planes: 3, stride: 0, len: 160 }).is_none());
    assert_eq!(
        r.infer_size(FrameShape { planes: 3, stride: 16, len: 165 }).unwrap(),
        "oxideplay: inferred dynamic video size 16x10 from first frame"
    );
    assert!(r.can_render());
    assert!(r.infer_size(FrameShape { planes: 3, stride: 32, len: 160 }).is_none());
    let p = r.render(16, 10).unwrap();
    assert_eq!((p.y_row, p.u_row, p.content_width, p.content_height), (16, 8, 16, 10));
    assert!(r.render(0, 10).is_none());
}

#[test]
fn uploads_cover_luma_in_full_and_chroma_in_half() {
    let mut r = VideoRenderer::new(8, 8, 64, String::new());
    r.set_source_video_params(&source(Some(30), Some(20), None));
    let p = r.render(15, 10).unwrap();
    let (y, u, v) = p.planes();
    assert_eq!(y, PlaneUpload { width: 15, height: 10, row: 15 });
    assert_eq!(u, PlaneUpload { width: 7, height: 5, row: 7 });
    assert_eq!(v, u);
    assert_eq!((p.content_width, p.content_height), (30, 20));
}

#[test]
fn pictures_in_video_memory_tell_their_size_once_copied() {
    let mut r = VideoRenderer::new(8, 8, 64, "gpu".to_string());
    assert_eq!(r.adapter_summary(), "gpu");
    r.src_format = PixelFormat::Gray8;
    assert_eq!(r.render_vdpau(false, 6, 4), VdpauStep::Fallback);
    assert_eq!(r.render_vdpau(true, 65, 4), VdpauStep::Fallback);
    assert_eq!(r.render_vdpau(true, 6, 4), VdpauStep::Build);
    assert_eq!((r.src_width, r.src_height), (0, 0));
    assert_eq!(r.on_bridge_copied(2, true), VdpauStep::Draw(2));
    assert_eq!((r.src_width, r.src_height, r.src_format), (6, 4, PixelFormat::Yuv420P));
    assert_eq!(r.on_bridge_copied(1, false), VdpauStep::Fallback);
    assert!(r.bridges.disabled);
    assert_eq!(r.render_vdpau(true, 6, 4), VdpauStep::Fallback);
}

#[test]
fn the_letterbox_keeps_the_shape() {
    let b = letterbox(100, 100, 200, 100);
    assert_eq!(b.scale_x, Ratio { num: 1, den: 1 });
    assert_eq!(b.scale_y, Ratio { num: 20_000, den: 10_000 });
    assert_eq!(b.offset_y, Ratio { num: 10_000, den: 40_000 });
    let b = letterbox(200, 100, 100, 100);
    assert_eq!(b.scale_x, Ratio { num: 20_000, den: 10_000 });
    assert_eq!(b.offset_x, Ratio { num: 10_000, den: 40_000 });
    assert_eq!(b.scale_y, Ratio { num: 1, den: 1 });
    let b = letterbox(16, 9, 32, 18);
    assert_eq!(b.scale_x.num, b.scale_x.den);
    assert_eq!((b.offset_x.num, b.offset_y.num), (0, 0));
}

#[test]
fn surfaces_are_asked_once_more_at_most() {
    assert_eq!(acquire_step(SurfaceState::Success, false), AcquireStep::Draw);
    assert_eq!(acquire_step(SurfaceState::Suboptimal, true), AcquireStep::Draw);
    assert_eq!(acquire_step(SurfaceState::Lost, false), AcquireStep::Reconfigure);
    assert_eq!(acquire_step(SurfaceState::Outdated, true), AcquireStep::FailAgain);
    assert_eq!(acquire_step(SurfaceState::Timeout, false), AcquireStep::Skip);
    assert_eq!(acquire_step(SurfaceState::Occluded, false), AcquireStep::Skip);
    assert_eq!(acquire_step(SurfaceState::Validation, false), AcquireStep::Fail);
    assert_eq!(overlay_acquire_step(SurfaceState::Validation, false), AcquireStep::Skip);
    assert_eq!(overlay_acquire_step(SurfaceState::Outdated, false), AcquireStep::Reconfigure);
    assert_eq!(overlay_acquire_step(SurfaceState::Outdated, true), AcquireStep::Skip);
}

#[test]
fn formats_and_bindings_are_chosen() {
    assert_eq!(preferred_place(&[false, true, true]), 1);
    assert_eq!(preferred_place(&[false, false]), 0);
    assert_eq!(
        yuv_bindings(),
        vec![
            BindingKind::Texture,
            BindingKind::Texture,
            BindingKind::Texture,
            BindingKind::Sampler,
            BindingKind::Uniform,
        ]
    );
    assert_eq!(rgba_bindings().len(), 3);
    assert_eq!(
        describe_adapter("", "DiscreteGpu", "Vulkan", 640, 360, "Bgra8Unorm"),
        "gpu: <unnamed adapter> (discretegpu, vulkan)  surface: 640x360 Bgra8Unorm"
    );
    assert!(describe_adapter("X", "a", "b", 1, 2, "f").starts_with("gpu: X (a, b)"));
}

fn character(s: &str) -> KeyEvent {
    KeyEvent {
        logical_key: LogicalKey::Character(s.to_string()),
        physical_key: None,
        pressed: true,
        repeat: false,
    }
}

fn named(n: NamedKey) -> KeyEvent {
    KeyEvent { logical_key: LogicalKey::Named(n), physical_key: None, pressed: true, repeat: false }
}

fn placed(c: KeyCode) -> KeyEvent {
    KeyEvent {
        logical_key: LogicalKey::Other,
        physical_key: Some(c),
        pressed: true,
        repeat: false,
    }
}

#[test]
fn keys_map_as_documented() {
    let back = |s| Some(PlayerEvent::SeekRelative(MediaTime::from_secs(s), SeekDir::Back));
    let forward = |s| Some(PlayerEvent::SeekRelative(MediaTime::from_secs(s), SeekDir::Forward));
    assert_eq!(map_key(&character("q")), Some(PlayerEvent::Quit));
    assert_eq!(map_key(&character("Q")), Some(PlayerEvent::Quit));
    assert_eq!(map_key(&character("*")), Some(PlayerEvent::VolumeDelta(5)));
    assert_eq!(map_key(&character("/")), Some(PlayerEvent::VolumeDelta(-5)));
    assert_eq!(map_key(&character("x")), None);
    assert_eq!(map_key(&character("")), None);
    for (key, code, event) in [
        (NamedKey::Escape, KeyCode::Escape, Some(PlayerEvent::Quit)),
        (NamedKey::Space, KeyCode::Space, Some(PlayerEvent::TogglePause)),
        (NamedKey::ArrowLeft, KeyCode::ArrowLeft, back(10)),
        (NamedKey::ArrowRight, KeyCode::ArrowRight, forward(10)),
        (NamedKey::ArrowUp, KeyCode::ArrowUp, forward(60)),
        (NamedKey::ArrowDown, KeyCode::ArrowDown, back(60)),
        (NamedKey::PageUp, KeyCode::PageUp, forward(600)),
        (NamedKey::PageDown, KeyCode::PageDown, back(600)),
        (NamedKey::Other, KeyCode::Other, None),
    ] {
        assert_eq!(map_key(&named(key)), event);
        assert_eq!(map_key(&placed(code)), event);
    }
    assert_eq!(map_key(&placed(KeyCode::NumpadMultiply)), Some(PlayerEvent::VolumeDelta(5)));
    assert_eq!(map_key(&placed(KeyCode::NumpadDivide)), Some(PlayerEvent::VolumeDelta(-5)));
    assert!(is_logical_char(&character("Fx"), 'f'));
    assert!(!is_logical_char(&named(NamedKey::Space), ' '));
}

#[test]
fn window_events_reach_the_player_in_order() {
    let mut a = WinitApp::new(Some((0, 360)));
    assert_eq!(a.resumed(), ResumeAction::CreateWindowSized(1, 360));
    assert_eq!(WinitApp::new(None).resumed(), ResumeAction::CreateWindow);
    assert_eq!(a.window_event(WindowEvent::Resized(5, 6), false), WindowAction::Nothing);
    a.set_source_video_params(&source(Some(2), Some(2), None));
    assert_eq!(a.on_window_created(true).unwrap().width, Some(2));
    assert_eq!(a.resumed(), ResumeAction::Nothing);
    assert_eq!(a.window_event(WindowEvent::Resized(5, 6), false), WindowAction::Resize(5, 6));
    assert_eq!(
        a.window_event(WindowEvent::Key(character("F")), false),
        WindowAction::ToggleFullscreen
    );
    a.window_event(WindowEvent::Key(named(NamedKey::Space)), false);
    a.window_event(WindowEvent::Key(character("q")), true);
    let mut held = character("*");
    held.repeat = true;
    a.window_event(WindowEvent::Key(held), false);
    let mut up = character("*");
    up.pressed = false;
    a.window_event(WindowEvent::Key(up), false);
    a.window_event(WindowEvent::Key(character("*")), false);
    a.window_event(WindowEvent::Other, false);
    a.window_event(WindowEvent::CloseRequested, false);
    assert!(a.quit);
    assert_eq!(
        a.poll_events(true, vec![PlayerEvent::ToggleMute]),
        vec![
            PlayerEvent::TogglePause,
            PlayerEvent::VolumeDelta(5),
            PlayerEvent::Quit,
            PlayerEvent::Quit,
            PlayerEvent::ToggleMute,
        ]
    );
    assert_eq!(a.poll_events(false, vec![]), vec![]);
}

#[test]
fn windows_that_fail_end_the_player() {
    let mut a = WinitApp::new(None);
    a.on_window_failed();
    assert!(a.quit && !a.window);
    assert_eq!(a.poll_events(false, vec![]), vec![PlayerEvent::Quit]);
    let mut a = WinitApp::new(None);
    assert!(a.on_window_created(false).is_none());
    assert!(a.quit && a.window && !a.video);
    assert!(!a.overlay_alone(false));
    let mut a = WinitApp::new(None);
    a.on_window_created(true);
    assert!(a.overlay_alone(false) && !a.overlay_alone(true));
}

#[test]
fn the_window_describes_itself() {
    assert_eq!(window_info(Some("gpu: X"), None), "winit+wgpu  gpu: X");
    assert_eq!(
        window_info(None, Some((3, 4))),
        "winit+wgpu  requested: 3x4 (renderer not up yet)"
    );
    assert_eq!(window_info(None, None), "winit+wgpu  (no dims, renderer not up yet)");
}
