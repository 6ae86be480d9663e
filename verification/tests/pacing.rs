use korangar::graphics::context::GlobalContext;
use korangar::graphics::frame_pacer::{advance_generation, FramePacer, FrameStage, NANOSECONDS_PER_SECOND};
use korangar::graphics::passes::water::{
    BindGroup, ColorAttachment, LoadOp, RenderTarget, StoreOp, WaterRenderPassContext, PASS_NAME,
};
use korangar::graphics::settings::{PresentModeInfo, ScreenSize, ShadowDetail, TextureSamplerType};
use korangar::graphics::surface::{Surface, WindowSurface};
use wgpu::TextureFormat;

#[test]
fn generation_counts_up_and_wraps() {
    assert_eq!(advance_generation(0), 1);
    assert_eq!(advance_generation(41), 42);
    assert_eq!(advance_generation(u64::MAX), 0);
}

#[test]
fn new_pacer_has_not_begun_a_frame() {
    let pacer = FramePacer::new(60);
    assert_eq!(pacer, FramePacer { monitor_frequency: 60, last_begin: None });
    assert_eq!(pacer.wait_for_frame(12345), 0);
}

#[test]
fn pacer_waits_for_the_rest_of_the_refresh_interval() {
    assert_eq!(NANOSECONDS_PER_SECOND, 1_000_000_000);
    let mut pacer = FramePacer::new(60);
    let stage = pacer.create_frame_stage(7);
    assert_eq!(stage, FrameStage { begin: 7, end: 7, generation: 0 });
    let stage = pacer.begin_frame_stage(stage, 1_000);
    assert_eq!(stage, FrameStage { begin: 1_000, end: 7, generation: 1 });
    assert_eq!(pacer.last_begin, Some(1_000));
    // One refresh interval at 60 Hz is 16_666_666 ns.
    assert_eq!(pacer.wait_for_frame(1_000), 16_666_666);
    assert_eq!(pacer.wait_for_frame(6_667_666), 10_000_000);
    assert_eq!(pacer.wait_for_frame(16_667_665), 1);
    assert_eq!(pacer.wait_for_frame(16_667_666), 0);
    assert_eq!(pacer.wait_for_frame(99_999_999), 0);
    let stage = pacer.end_frame_stage(stage, 5_000);
    assert_eq!(stage, FrameStage { begin: 1_000, end: 5_000, generation: 1 });
    assert_eq!(pacer.last_begin, Some(1_000));
}

#[test]
fn pacer_without_a_frequency_never_waits() {
    let mut pacer = FramePacer::new(0);
    let stage = pacer.create_frame_stage(0);
    pacer.begin_frame_stage(stage, 1_000);
    assert_eq!(pacer.wait_for_frame(1_000), 0);
    assert_eq!(pacer.wait_for_frame(0), 1_000);
}

#[test]
fn pacer_wait_stays_within_the_clock() {
    let mut pacer = FramePacer::new(1);
    let stage = pacer.create_frame_stage(0);
    pacer.begin_frame_stage(stage, u64::MAX - 10);
    assert_eq!(pacer.wait_for_frame(u64::MAX - 10), 10);
    assert_eq!(pacer.wait_for_frame(u64::MAX), 0);
    pacer.set_monitor_frequency(1_000);
    assert_eq!(pacer.monitor_frequency, 1_000);
    assert_eq!(pacer.last_begin, Some(u64::MAX - 10));
}

fn plain_window() -> WindowSurface {
    WindowSurface {
        inner_size: ScreenSize { width: 320, height: 200 },
        format: TextureFormat::Rgba8UnormSrgb,
        present_mode_info: PresentModeInfo { supports_immediate: false, supports_mailbox: true },
    }
}

#[test]
fn surface_is_valid_until_its_configuration_changes() {
    let mut surface = Surface::new(&plain_window(), ScreenSize { width: 320, height: 200 }, true, false);
    assert_eq!(surface.format(), TextureFormat::Rgba8UnormSrgb);
    assert_eq!(surface.window_size(), ScreenSize { width: 320, height: 200 });
    assert_eq!(surface.window_screen_size(), ScreenSize { width: 320, height: 200 });
    assert_eq!(surface.present_mode_info(), PresentModeInfo { supports_immediate: false, supports_mailbox: true });
    assert!(surface.triple_buffering);
    assert!(!surface.vsync);
    assert!(!surface.is_invalid());
    surface.set_vsync(true);
    assert!(surface.vsync);
    assert!(surface.is_invalid());
    surface.reconfigure();
    assert!(!surface.is_invalid());
    assert!(surface.vsync);
    surface.set_triple_buffering(false);
    assert!(!surface.triple_buffering);
    assert!(surface.is_invalid());
    surface.reconfigure();
    surface.update_window_size(ScreenSize { width: 1, height: 2 });
    assert!(surface.is_invalid());
    assert_eq!(surface.window_size(), ScreenSize { width: 1, height: 2 });
    surface.reconfigure();
    surface.invalidate();
    assert!(surface.is_invalid());
    let frame = surface.acquire();
    assert_eq!(frame.size, ScreenSize { width: 1, height: 2 });
    assert_eq!(frame.format, TextureFormat::Rgba8UnormSrgb);
    assert!(surface.is_invalid());
}

#[test]
fn global_context_replaces_one_group_of_resources_at_a_time() {
    let mut context = GlobalContext::new(
        TextureFormat::Bgra8Unorm,
        ScreenSize { width: 10, height: 20 },
        ShadowDetail::Low,
        TextureSamplerType::Nearest,
    );
    assert_eq!(context.surface_format, TextureFormat::Bgra8Unorm);
    assert_eq!((context.screen_size_textures, context.shadow_size_textures, context.texture_sampler), (0, 0, 0));
    context.update_shadow_size_textures(ShadowDetail::High);
    assert_eq!(context.shadow_detail, ShadowDetail::High);
    assert_eq!((context.screen_size_textures, context.shadow_size_textures, context.texture_sampler), (0, 1, 0));
    context.update_screen_size_textures(ScreenSize { width: 30, height: 40 });
    assert_eq!(context.screen_size, ScreenSize { width: 30, height: 40 });
    assert_eq!((context.screen_size_textures, context.shadow_size_textures, context.texture_sampler), (1, 1, 0));
    context.update_texture_sampler(TextureSamplerType::Linear);
    assert_eq!(context.texture_sampler_type, TextureSamplerType::Linear);
    assert_eq!((context.screen_size_textures, context.shadow_size_textures, context.texture_sampler), (1, 1, 1));
    context.update_shadow_size_textures(ShadowDetail::High);
    assert_eq!((context.screen_size_textures, context.shadow_size_textures, context.texture_sampler), (1, 2, 1));
    assert_eq!(context.surface_format, TextureFormat::Bgra8Unorm);
}

#[test]
fn water_pass_draws_over_the_forward_colour_target() {
    let mut context = WaterRenderPassContext::new(TextureFormat::Rgba16Float);
    assert_eq!(context.color_attachment_formats(), [TextureFormat::Rgba16Float]);
    assert_eq!(context.depth_attachment_output_format(), []);
    assert_eq!(WaterRenderPassContext::bind_group_layout(), [BindGroup::Global, BindGroup::Forward]);
    let pass = context.create_pass(false);
    assert_eq!(pass.label, "water render pass");
    assert_eq!(pass.label, PASS_NAME);
    assert_eq!(
        pass.color_attachment,
        ColorAttachment {
            view: RenderTarget::ForwardColor,
            resolve_target: None,
            load: LoadOp::Load,
            store: StoreOp::Store,
        }
    );
    assert!(!pass.depth_stencil_attachment);
    assert_eq!(pass.bind_groups, [BindGroup::Global, BindGroup::Forward]);
    let pass = context.create_pass(true);
    assert_eq!(pass.color_attachment.resolve_target, Some(RenderTarget::ResolvedColor));
    assert_eq!(pass.color_attachment.view, RenderTarget::ForwardColor);
    assert_eq!(context.color_texture_format, TextureFormat::Rgba16Float);
}
