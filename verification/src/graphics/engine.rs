//! The graphics engine: the state that lives across frames, and the protocol
//! of one frame.
//!
//! The engine decides; the caller acts on the device. Each operation changes
//! the engine's state and tells the caller what to do on the device, in the
//! order in which it has to be done.

use vstd::prelude::*;
use wgpu::TextureFormat;

use crate::graphics::context::{EngineContext, GlobalContext};
use crate::graphics::frame::{
    directional_shadow_commands, draw_tasks, geometry_commands, interface_commands, picker_commands,
    plan_draw_tasks, plan_prepare_tasks, point_shadow_commands, prepare_tasks, record_directional_shadow_pass,
    record_geometry_pass, record_interface_pass, record_picker_pass, record_point_shadow_pass,
    record_screen_pass, record_uploads, screen_commands, upload_commands,
};
use crate::graphics::frame_pacer::{advance_generation, FramePacer, FrameStage};
use crate::graphics::instruction::RenderInstruction;
use crate::graphics::passes::{
    Command, CommandBuffer, CommandBufferKind, DrawTask, PrepareTask, RecordedCommands, Resource,
    NUMBER_OF_POINT_LIGHTS_WITH_SHADOWS,
};
use crate::graphics::settings::{LimitFramerate, PresentModeInfo, ScreenSize, ShadowDetail, TextureSamplerType};
use crate::graphics::surface::{same_format, Surface, SurfaceTexture, WindowSurface};

verus! {

/// The refresh rate that the frame pacer starts with.
pub const DEFAULT_MONITOR_FREQUENCY: u32 = 60;

/// The size in bytes of a chunk of the staging belt.
pub const STAGING_BELT_CHUNK_SIZE: u64 = 1048576;

/// What an engine is set up with.
#[derive(Clone, Copy, Debug, PartialEq, Eq, Structural)]
pub struct GraphicsEngineDescriptor {
    /// Whether the drawers for debugging aids are built and drawn.
    pub debug_overlays: bool,
    /// Whether the platform takes the surface away when the application is
    /// suspended.
    pub release_surface_on_suspend: bool,
}

/// Where the engine stands in its life.
#[derive(Clone, Copy, Debug, PartialEq, Eq, Structural)]
pub enum EnginePhase {
    /// Neither a surface nor a context exists.
    Uninitialized,
    /// The surface was released; the context waits for the next resume.
    Suspended,
    /// Surface and context exist: frames can be rendered.
    Active,
}

/// The state of the engine.
#[derive(Clone, Copy, Debug)]
pub struct EngineState {
    pub debug_overlays: bool,
    pub release_surface_on_suspend: bool,
    pub surface: Option<Surface>,
    pub frame_pacer: FramePacer,
    pub cpu_stage: FrameStage,
    pub limit_framerate: bool,
    pub previous_surface_texture_format: Option<TextureFormat>,
    pub engine_context: Option<EngineContext>,
}

impl EngineState {
    /// The state is consistent: a context exists exactly if a pixel format
    /// was negotiated before, the context is built for that format, and a
    /// surface never exists without a context for its format.
    pub open spec fn wf(self) -> bool {
        &&& self.previous_surface_texture_format.is_some() == self.engine_context.is_some()
        &&& match self.engine_context {
            Some(context) => Some(context.global_context.surface_format)
                == self.previous_surface_texture_format,
            None => true,
        }
        &&& match self.surface {
            Some(surface) => Some(surface.format) == self.previous_surface_texture_format,
            None => true,
        }
    }

    pub open spec fn phase(self) -> EnginePhase {
        if self.surface.is_some() {
            EnginePhase::Active
        } else if self.engine_context.is_some() {
            EnginePhase::Suspended
        } else {
            EnginePhase::Uninitialized
        }
    }

    /// The state of a new engine.
    pub open spec fn initial(descriptor: GraphicsEngineDescriptor, now: u64) -> EngineState {
        EngineState {
            debug_overlays: descriptor.debug_overlays,
            release_surface_on_suspend: descriptor.release_surface_on_suspend,
            surface: None,
            frame_pacer: FramePacer { monitor_frequency: DEFAULT_MONITOR_FREQUENCY, last_begin: None },
            cpu_stage: FrameStage { begin: now, end: now, generation: 0 },
            limit_framerate: false,
            previous_surface_texture_format: None,
            engine_context: None,
        }
    }

    pub open spec fn with_limit_framerate(self, limit_framerate: LimitFramerate) -> EngineState {
        match limit_framerate {
            LimitFramerate::Unlimited => EngineState { limit_framerate: false, ..self },
            LimitFramerate::Limit(rate) => EngineState {
                limit_framerate: true,
                frame_pacer: FramePacer { monitor_frequency: rate as u32, ..self.frame_pacer },
                ..self
            },
        }
    }

    /// Whether a resume with this window creates a surface.
    pub open spec fn creates_surface_on_resume(self) -> bool {
        self.surface.is_none()
    }

    /// Whether a resume with this window tears the context down and builds a
    /// new one: a surface is created, and its pixel format is not the one
    /// that the context was built for.
    pub open spec fn rebuilds_context_on_resume(self, window: WindowSurface) -> bool {
        self.surface.is_none() && self.previous_surface_texture_format != Some(window.format)
    }

    /// The state after a resume.
    pub open spec fn resumed(
        self,
        window: WindowSurface,
        triple_buffering: bool,
        vsync: bool,
        limit_framerate: LimitFramerate,
        shadow_detail: ShadowDetail,
        texture_sampler_type: TextureSamplerType,
    ) -> EngineState {
        let limited = self.with_limit_framerate(limit_framerate);
        let screen_size = window.inner_size.at_least_one_pixel();
        let surface = Surface::spec_new(window, screen_size, triple_buffering, vsync);
        if !self.creates_surface_on_resume() {
            limited
        } else if self.rebuilds_context_on_resume(window) {
            EngineState {
                surface: Some(surface),
                previous_surface_texture_format: Some(window.format),
                engine_context: Some(
                    EngineContext {
                        generation: EngineContext::generation_after(self.engine_context),
                        global_context: GlobalContext::spec_new(
                            window.format,
                            screen_size,
                            shadow_detail,
                            texture_sampler_type,
                        ),
                    },
                ),
                ..limited
            }
        } else {
            EngineState { surface: Some(surface), ..limited }
        }
    }

    /// The state after the application was suspended.
    pub open spec fn suspended(self) -> EngineState {
        if self.release_surface_on_suspend {
            EngineState { surface: None, ..self }
        } else {
            self
        }
    }

    /// The state after a change of the surface's configuration.
    pub open spec fn with_surface(self, change: spec_fn(Surface) -> Surface) -> EngineState {
        match self.surface {
            Some(surface) => EngineState { surface: Some(change(surface)), ..self },
            None => self,
        }
    }

    /// The state after a change of the shared resources.
    pub open spec fn with_global_context(self, change: spec_fn(GlobalContext) -> GlobalContext) -> EngineState {
        match self.engine_context {
            Some(context) => EngineState {
                engine_context: Some(EngineContext { global_context: change(context.global_context), ..context }),
                ..self
            },
            None => self,
        }
    }

    pub open spec fn resized(self, screen_size: ScreenSize) -> EngineState {
        self.with_surface(|surface: Surface| (Surface { window_size: screen_size, ..surface }).invalidated())
    }

    pub open spec fn with_vsync(self, enabled: bool) -> EngineState {
        self.with_surface(|surface: Surface| (Surface { vsync: enabled, ..surface }).invalidated())
    }

    pub open spec fn with_triple_buffering(self, enabled: bool) -> EngineState {
        self.with_surface(|surface: Surface| (Surface { triple_buffering: enabled, ..surface }).invalidated())
    }

    pub open spec fn with_texture_sampler_type(self, texture_sampler_type: TextureSamplerType) -> EngineState {
        self.with_global_context(|context: GlobalContext| context.with_texture_sampler(texture_sampler_type))
    }

    pub open spec fn with_shadow_detail(self, shadow_detail: ShadowDetail) -> EngineState {
        self.with_global_context(|context: GlobalContext| context.with_shadow_detail(shadow_detail))
    }

    /// Whether the surface has to be configured again before the next frame.
    pub open spec fn needs_reconfigure(self) -> bool {
        match self.surface {
            Some(surface) => surface.invalid,
            None => false,
        }
    }

    /// The state after an invalid surface was configured again and the
    /// render targets took the surface's size. A valid surface is left alone.
    pub open spec fn reconfigured(self) -> EngineState {
        match self.surface {
            Some(surface) => if surface.invalid {
                (EngineState { surface: Some(surface.reconfigured()), ..self }).with_global_context(
                    |context: GlobalContext| context.with_screen_size(surface.window_size),
                )
            } else {
                self
            },
            None => self,
        }
    }

    /// How long the next frame is held back, in nanoseconds.
    pub open spec fn pacing_wait(self, now: u64) -> nat {
        if self.limit_framerate {
            self.frame_pacer.wait_time(now)
        } else {
            0
        }
    }

    /// When the next frame begins: after the wait, and within the clock's
    /// range.
    pub open spec fn frame_begin(self, now: u64) -> u64 {
        if now + self.pacing_wait(now) > u64::MAX {
            u64::MAX
        } else {
            (now + self.pacing_wait(now)) as u64
        }
    }

    /// The state after the engine waited for the next frame.
    pub open spec fn awaited(self, now: u64) -> EngineState {
        let reconfigured = self.reconfigured();
        EngineState {
            frame_pacer: FramePacer { last_begin: Some(self.frame_begin(now)), ..self.frame_pacer },
            cpu_stage: FramePacer::stage_begun(self.cpu_stage, self.frame_begin(now)),
            ..reconfigured
        }
    }

    /// The state after a frame was rendered.
    pub open spec fn rendered(self, now: u64) -> EngineState {
        EngineState { cpu_stage: FrameStage { end: now, ..self.cpu_stage }, ..self }
    }

    /// The extent of the picker texture, which has the size of the screen.
    pub open spec fn picker_extent(self) -> ScreenSize
        recommends
            self.engine_context.is_some(),
    {
        self.engine_context.unwrap().global_context.screen_size
    }

    /// Whether the engine can render `instruction` as its next frame: the
    /// context exists, its picker texture is not empty, and the instruction
    /// holds no more shadow casting point lights than the engine supports.
    pub open spec fn can_render(self, instruction: RenderInstruction) -> bool {
        &&& instruction.is_renderable()
        &&& self.engine_context.is_some()
        &&& self.picker_extent().width >= 1
        &&& self.picker_extent().height >= 1
    }
}

/// What a resume asks of the caller.
#[derive(Debug)]
pub struct ResumeOutcome {
    /// The surface of the window has to be configured.
    pub surface_created: bool,
    /// The context has to be dropped and built again, for the new format.
    pub context_rebuilt: bool,
    /// What to build, in this order; empty if nothing is rebuilt.
    pub build_order: Vec<Resource>,
}

/// What the caller does before it renders the next frame.
#[derive(Debug)]
pub struct NextFrame {
    /// Configure the surface again, and replace the render targets that have
    /// the size of the screen by targets of the frame's size.
    pub reconfigure: bool,
    /// Then sleep for this many nanoseconds.
    pub wait: u64,
    /// Then acquire this frame.
    pub frame: SurfaceTexture,
}

/// A step of the frame protocol.
#[derive(Clone, Copy, Debug, PartialEq, Eq, Structural)]
pub enum FrameStep {
    /// Take back the staging buffers that the device has finished reading.
    RecallStagingBelt,
    /// Run the tasks of the prepare stage, and wait for all of them.
    Prepare,
    /// Record the prepare command buffer.
    Upload,
    /// Record the command buffers of the six passes.
    Draw,
    /// Close the staging buffers that were written in this frame.
    FinishStagingBelt,
    /// Ask for the picker value buffer to be read once the device has
    /// finished the work that fills it.
    QueuePickerValue,
    /// Block until the device has finished all work that was submitted.
    WaitForDevice,
    /// Submit the command buffers of this frame.
    Submit,
    /// Ask for the frame to be presented.
    Present,
    /// Close the timing of the frame.
    EndFrameStage,
}

/// The steps of one frame, in their order.
pub open spec fn frame_steps() -> Seq<FrameStep> {
    seq![
        FrameStep::RecallStagingBelt,
        FrameStep::Prepare,
        FrameStep::Upload,
        FrameStep::Draw,
        FrameStep::FinishStagingBelt,
        FrameStep::QueuePickerValue,
        FrameStep::WaitForDevice,
        FrameStep::Submit,
        FrameStep::Present,
        FrameStep::EndFrameStage,
    ]
}

/// The kinds of the command buffers of a frame, in the order in which they
/// are submitted.
pub open spec fn submission_order() -> Seq<CommandBufferKind> {
    seq![
        CommandBufferKind::Prepare,
        CommandBufferKind::Interface,
        CommandBufferKind::Picker,
        CommandBufferKind::DirectionalShadow,
        CommandBufferKind::PointShadow,
        CommandBufferKind::Geometry,
        CommandBufferKind::Screen,
    ]
}

/// The commands that a frame records into the buffer of the given kind.
#[verifier::opaque]
pub open spec fn frame_commands(
    kind: CommandBufferKind,
    instruction: RenderInstruction,
    picker_extent: ScreenSize,
    debug_overlays: bool,
) -> Seq<Command> {
    match kind {
        CommandBufferKind::Prepare => upload_commands(debug_overlays),
        CommandBufferKind::Interface => interface_commands(instruction),
        CommandBufferKind::Picker => picker_commands(instruction, picker_extent, debug_overlays),
        CommandBufferKind::DirectionalShadow => directional_shadow_commands(),
        CommandBufferKind::PointShadow => point_shadow_commands(instruction.point_light_shadow_casters as nat),
        CommandBufferKind::Geometry => geometry_commands(instruction),
        CommandBufferKind::Screen => screen_commands(instruction, debug_overlays),
    }
}

/// The command buffers that a frame submits: one of each kind, in the order
/// of submission.
pub open spec fn frame_submission(
    instruction: RenderInstruction,
    picker_extent: ScreenSize,
    debug_overlays: bool,
) -> Seq<RecordedCommands> {
    Seq::new(
        submission_order().len(),
        |i: int|
            RecordedCommands {
                kind: submission_order()[i],
                commands: frame_commands(submission_order()[i], instruction, picker_extent, debug_overlays),
            },
    )
}

/// The contents of a sequence of command buffers.
pub open spec fn recorded(buffers: Seq<CommandBuffer>) -> Seq<RecordedCommands> {
    buffers.map_values(|buffer: CommandBuffer| buffer@)
}

/// Everything that rendering one frame asks of the caller.
#[derive(Debug)]
pub struct RenderedFrame {
    /// What to do, in this order.
    pub steps: Vec<FrameStep>,
    /// The tasks of the prepare step.
    pub prepare_tasks: Vec<PrepareTask>,
    /// The tasks of the draw step.
    pub draw_tasks: Vec<DrawTask>,
    /// The command buffers of the submit step, in the order of submission.
    /// The first is recorded in the upload step, the others in the draw step.
    pub submission: Vec<CommandBuffer>,
    /// The frame of the present step.
    pub frame: SurfaceTexture,
}

/// The graphics engine.
pub struct GraphicsEngine {
    state: EngineState,
}

impl View for GraphicsEngine {
    type V = EngineState;

    closed spec fn view(&self) -> EngineState {
        self.state
    }
}

impl GraphicsEngine {
    #[verifier::type_invariant]
    spec fn type_invariant(self) -> bool {
        self.state.wf()
    }

    /// Sets up an engine that has neither a surface nor a context. `now` is
    /// the time of the call.
    pub fn initialize(descriptor: GraphicsEngineDescriptor, now: u64) -> (engine: GraphicsEngine)
        ensures
            engine@ == EngineState::initial(descriptor, now),
            engine@.wf(),
    {
        let mut frame_pacer = FramePacer::new(DEFAULT_MONITOR_FREQUENCY);
        let cpu_stage = frame_pacer.create_frame_stage(now);
        GraphicsEngine {
            state: EngineState {
                debug_overlays: descriptor.debug_overlays,
                release_surface_on_suspend: descriptor.release_surface_on_suspend,
                surface: None,
                frame_pacer,
                cpu_stage,
                limit_framerate: false,
                previous_surface_texture_format: None,
                engine_context: None,
            },
        }
    }

    /// The engine's state.
    pub fn state(&self) -> (state: EngineState)
        ensures
            state == self@,
            state.wf(),
    {
        proof {
            use_type_invariant(self);
        }
        self.state
    }

    /// The application was resumed: the window can be drawn to.
    ///
    /// If the engine has no surface, one is created for the window. If the
    /// surface's pixel format is not the one that the context was built for,
    /// or there is no context yet, the whole context is built anew.
    pub fn on_resume(
        &mut self,
        window: &WindowSurface,
        triple_buffering: bool,
        vsync: bool,
        limit_framerate: LimitFramerate,
        shadow_detail: ShadowDetail,
        texture_sampler_type: TextureSamplerType,
    ) -> (outcome: ResumeOutcome)
        ensures
            final(self)@ == old(self)@.resumed(
                *window,
                triple_buffering,
                vsync,
                limit_framerate,
                shadow_detail,
                texture_sampler_type,
            ),
            final(self)@.wf(),
            outcome.surface_created == old(self)@.creates_surface_on_resume(),
            outcome.context_rebuilt == old(self)@.rebuilds_context_on_resume(*window),
            outcome.build_order@ == if outcome.context_rebuilt {
                EngineContext::spec_build_order(old(self)@.debug_overlays)
            } else {
                Seq::empty()
            },
    {
        proof {
            use_type_invariant(&*self);
        }
        let before = self.state;
        self.set_limit_framerate(limit_framerate);
        let limited = self.state;
        if before.surface.is_none() {
            let screen_size = window.inner_size.at_least_one_pixel();
            let surface = Surface::new(window, screen_size, triple_buffering, vsync);
            let surface_texture_format = surface.format();
            let same = match before.previous_surface_texture_format {
                Some(previous) => same_format(&previous, &surface_texture_format),
                None => false,
            };
            if !same {
                let generation = match before.engine_context {
                    Some(context) => advance_generation(context.generation),
                    None => 0,
                };
                let global_context = GlobalContext::new(
                    surface_texture_format,
                    screen_size,
                    shadow_detail,
                    texture_sampler_type,
                );
                self.state = EngineState {
                    surface: Some(surface),
                    previous_surface_texture_format: Some(surface_texture_format),
                    engine_context: Some(EngineContext { generation, global_context }),
                    ..limited
                };
                ResumeOutcome {
                    surface_created: true,
                    context_rebuilt: true,
                    build_order: EngineContext::build_order(before.debug_overlays),
                }
            } else {
                self.state = EngineState { surface: Some(surface), ..limited };
                ResumeOutcome { surface_created: true, context_rebuilt: false, build_order: Vec::new() }
            }
        } else {
            ResumeOutcome { surface_created: false, context_rebuilt: false, build_order: Vec::new() }
        }
    }

    /// The application was suspended. On a platform that takes the surface
    /// away, the surface is dropped; the context is kept for the next resume.
    /// Returns whether the surface was dropped.
    pub fn on_suspended(&mut self) -> (released: bool)
        ensures
            final(self)@ == old(self)@.suspended(),
            final(self)@.wf(),
            released == (old(self)@.release_surface_on_suspend && old(self)@.surface.is_some()),
    {
        proof {
            use_type_invariant(&*self);
        }
        let state = self.state;
        if state.release_surface_on_suspend {
            self.state = EngineState { surface: None, ..state };
            state.surface.is_some()
        } else {
            false
        }
    }

    /// The window has a new size.
    pub fn on_resize(&mut self, screen_size: ScreenSize)
        ensures
            final(self)@ == old(self)@.resized(screen_size),
            final(self)@.wf(),
    {
        proof {
            use_type_invariant(&*self);
        }
        let state = self.state;
        if let Some(surface) = state.surface {
            let mut surface = surface;
            surface.update_window_size(screen_size);
            self.state = EngineState { surface: Some(surface), ..state };
        }
    }

    pub fn set_vsync(&mut self, enabled: bool)
        ensures
            final(self)@ == old(self)@.with_vsync(enabled),
            final(self)@.wf(),
    {
        proof {
            use_type_invariant(&*self);
        }
        let state = self.state;
        if let Some(surface) = state.surface {
            let mut surface = surface;
            surface.set_vsync(enabled);
            self.state = EngineState { surface: Some(surface), ..state };
        }
    }

    pub fn set_limit_framerate(&mut self, limit_framerate: LimitFramerate)
        ensures
            final(self)@ == old(self)@.with_limit_framerate(limit_framerate),
            final(self)@.wf(),
    {
        proof {
            use_type_invariant(&*self);
        }
        let state = self.state;
        match limit_framerate {
            LimitFramerate::Unlimited => {
                self.state = EngineState { limit_framerate: false, ..state };
            },
            LimitFramerate::Limit(rate) => {
                let mut frame_pacer = state.frame_pacer;
                frame_pacer.set_monitor_frequency(rate as u32);
                self.state = EngineState { limit_framerate: true, frame_pacer, ..state };
            },
        }
    }

    pub fn set_triple_buffering(&mut self, enabled: bool)
        ensures
            final(self)@ == old(self)@.with_triple_buffering(enabled),
            final(self)@.wf(),
    {
        proof {
            use_type_invariant(&*self);
        }
        let state = self.state;
        if let Some(surface) = state.surface {
            let mut surface = surface;
            surface.set_triple_buffering(enabled);
            self.state = EngineState { surface: Some(surface), ..state };
        }
    }

    /// Changes how world textures are filtered. Only the sampler is
    /// replaced. Returns whether there is a context to change.
    pub fn set_texture_sampler_type(&mut self, texture_sampler_type: TextureSamplerType) -> (applied: bool)
        ensures
            final(self)@ == old(self)@.with_texture_sampler_type(texture_sampler_type),
            final(self)@.wf(),
            applied == old(self)@.engine_context.is_some(),
    {
        proof {
            use_type_invariant(&*self);
        }
        let state = self.state;
        if let Some(context) = state.engine_context {
            let mut global_context = context.global_context;
            global_context.update_texture_sampler(texture_sampler_type);
            self.state = EngineState {
                engine_context: Some(EngineContext { global_context, ..context }),
                ..state
            };
            true
        } else {
            false
        }
    }

    /// Changes the quality of the shadows. Only the shadow maps are
    /// replaced. Returns whether there is a context to change.
    pub fn set_shadow_detail(&mut self, shadow_detail: ShadowDetail) -> (applied: bool)
        ensures
            final(self)@ == old(self)@.with_shadow_detail(shadow_detail),
            final(self)@.wf(),
            applied == old(self)@.engine_context.is_some(),
    {
        proof {
            use_type_invariant(&*self);
        }
        let state = self.state;
        if let Some(context) = state.engine_context {
            let mut global_context = context.global_context;
            global_context.update_shadow_size_textures(shadow_detail);
            self.state = EngineState {
                engine_context: Some(EngineContext { global_context, ..context }),
                ..state
            };
            true
        } else {
            false
        }
    }

    pub fn get_present_mode_info(&self) -> (info: PresentModeInfo)
        requires
            self@.surface.is_some(),
        ensures
            info == self@.surface.unwrap().present_mode_info,
    {
        self.state.surface.unwrap().present_mode_info()
    }

    pub fn get_window_size(&self) -> (size: ScreenSize)
        requires
            self@.surface.is_some(),
        ensures
            size == self@.surface.unwrap().window_size,
    {
        self.state.surface.unwrap().window_size()
    }

    /// Gets the engine ready for the next frame and says what the caller has
    /// to do before it renders: configure an invalid surface again, sleep to
    /// keep the pace, and acquire the frame. `now` is the time of the call;
    /// the frame begins when the sleep is over.
    pub fn wait_for_next_frame(&mut self, now: u64) -> (next: NextFrame)
        requires
            old(self)@.surface.is_some(),
        ensures
            final(self)@ == old(self)@.awaited(now),
            final(self)@.wf(),
            next.reconfigure == old(self)@.needs_reconfigure(),
            next.wait == old(self)@.pacing_wait(now),
            next.frame == final(self)@.surface.unwrap().frame(),
    {
        proof {
            use_type_invariant(&*self);
        }
        let state = self.state;
        let mut surface = state.surface.unwrap();
        let mut engine_context = state.engine_context;
        let reconfigure = surface.is_invalid();
        if reconfigure {
            surface.reconfigure();
            if let Some(context) = engine_context {
                let mut global_context = context.global_context;
                global_context.update_screen_size_textures(surface.window_screen_size());
                engine_context = Some(EngineContext { global_context, ..context });
            }
        }
        let mut frame_pacer = state.frame_pacer;
        let wait: u64 = if state.limit_framerate {
            frame_pacer.wait_for_frame(now)
        } else {
            0
        };
        let cpu_stage = frame_pacer.begin_frame_stage(state.cpu_stage, now.saturating_add(wait));
        let frame = surface.acquire();
        self.state = EngineState { surface: Some(surface), engine_context, frame_pacer, cpu_stage, ..state };
        NextFrame { reconfigure, wait, frame }
    }
    /// Plans the prepare stage of a frame and records the uploads that
    /// follow it. The tasks batch the data of `instruction`; which tasks run,
    /// and in which groups, is the same for every instruction.
    pub fn prepare_frame_data(&self, instruction: &RenderInstruction) -> (prepared: (Vec<PrepareTask>, CommandBuffer))
        requires
            self@.engine_context.is_some(),
        ensures
            prepared.0@ == prepare_tasks(self@.debug_overlays),
            prepared.1@.kind == CommandBufferKind::Prepare,
            prepared.1@.commands == upload_commands(self@.debug_overlays),
    {
        let tasks = plan_prepare_tasks(self.state.debug_overlays);
        let prepare_command_buffer = record_uploads(self.state.debug_overlays);
        (tasks, prepare_command_buffer)
    }

    /// Records the command buffers of the six passes for `instruction`, to
    /// be drawn into `frame`. They come in the order picker, interface,
    /// directional shadow, point shadow, geometry, screen.
    pub fn draw_frame(&self, frame: &SurfaceTexture, instruction: &RenderInstruction) -> (buffers: (
        CommandBuffer,
        CommandBuffer,
        CommandBuffer,
        CommandBuffer,
        CommandBuffer,
        CommandBuffer,
    ))
        requires
            self@.engine_context.is_some(),
            self@.picker_extent().width >= 1,
            self@.picker_extent().height >= 1,
        ensures
            buffers.0@.kind == CommandBufferKind::Picker,
            buffers.0@.commands == picker_commands(*instruction, self@.picker_extent(), self@.debug_overlays),
            buffers.1@.kind == CommandBufferKind::Interface,
            buffers.1@.commands == interface_commands(*instruction),
            buffers.2@.kind == CommandBufferKind::DirectionalShadow,
            buffers.2@.commands == directional_shadow_commands(),
            buffers.3@.kind == CommandBufferKind::PointShadow,
            buffers.3@.commands == point_shadow_commands(instruction.point_light_shadow_casters as nat),
            buffers.4@.kind == CommandBufferKind::Geometry,
            buffers.4@.commands == geometry_commands(*instruction),
            buffers.5@.kind == CommandBufferKind::Screen,
            buffers.5@.commands == screen_commands(*instruction, self@.debug_overlays),
    {
        let engine_context = self.state.engine_context.unwrap();
        let picker_extent = engine_context.global_context.screen_size;
        let debug_overlays = self.state.debug_overlays;
        let picker_command_buffer = record_picker_pass(instruction, picker_extent, debug_overlays);
        let interface_command_buffer = record_interface_pass(instruction);
        let directional_shadow_command_buffer = record_directional_shadow_pass();
        let point_shadow_command_buffer = record_point_shadow_pass(instruction);
        let geometry_command_buffer = record_geometry_pass(instruction);
        let screen_command_buffer = record_screen_pass(instruction, debug_overlays);
        (
            picker_command_buffer,
            interface_command_buffer,
            directional_shadow_command_buffer,
            point_shadow_command_buffer,
            geometry_command_buffer,
            screen_command_buffer,
        )
    }

    /// Whether a read of the picker value is queued: there is one whenever
    /// there is a context, whose buffer holds the value.
    pub fn queue_picker_value(&self) -> (queued: bool)
        ensures
            queued == self@.engine_context.is_some(),
    {
        self.state.engine_context.is_some()
    }

    /// Puts the command buffers of a frame into the order in which they are
    /// submitted once the device has finished its earlier work.
    pub fn wait_and_submit_frame(
        &self,
        prepare_command_buffer: CommandBuffer,
        interface_command_buffer: CommandBuffer,
        picker_command_buffer: CommandBuffer,
        directional_shadow_command_buffer: CommandBuffer,
        point_shadow_command_buffer: CommandBuffer,
        geometry_command_buffer: CommandBuffer,
        screen_command_buffer: CommandBuffer,
    ) -> (submission: Vec<CommandBuffer>)
        ensures
            submission@ == seq![
                prepare_command_buffer,
                interface_command_buffer,
                picker_command_buffer,
                directional_shadow_command_buffer,
                point_shadow_command_buffer,
                geometry_command_buffer,
                screen_command_buffer,
            ],
    {
        let mut submission: Vec<CommandBuffer> = Vec::new();
        submission.push(prepare_command_buffer);
        submission.push(interface_command_buffer);
        submission.push(picker_command_buffer);
        submission.push(directional_shadow_command_buffer);
        submission.push(point_shadow_command_buffer);
        submission.push(geometry_command_buffer);
        submission.push(screen_command_buffer);
        assert(submission@ =~= seq![
            prepare_command_buffer,
            interface_command_buffer,
            picker_command_buffer,
            directional_shadow_command_buffer,
            point_shadow_command_buffer,
            geometry_command_buffer,
            screen_command_buffer,
        ]);
        submission
    }

    /// Renders `instruction` into `frame`: plans the whole frame and closes
    /// its timing at `now`.
    ///
    /// The result holds the steps of the frame and what each step works on.
    /// Seven command buffers are submitted, always in the same order, and
    /// only after the device has finished the work of the frame before.
    pub fn render_next_frame(&mut self, frame: SurfaceTexture, instruction: &RenderInstruction, now: u64) -> (rendered:
        RenderedFrame)
        requires
            old(self)@.can_render(*instruction),
        ensures
            final(self)@ == old(self)@.rendered(now),
            final(self)@.wf(),
            rendered.steps@ == frame_steps(),
            rendered.prepare_tasks@ == prepare_tasks(old(self)@.debug_overlays),
            rendered.draw_tasks@ == draw_tasks(),
            rendered.submission@.len() == 7,
            forall|i: int|
                0 <= i < 7 ==> (#[trigger] rendered.submission@[i])@ == frame_submission(
                    *instruction,
                    old(self)@.picker_extent(),
                    old(self)@.debug_overlays,
                )[i],
            recorded(rendered.submission@) == frame_submission(
                *instruction,
                old(self)@.picker_extent(),
                old(self)@.debug_overlays,
            ),
            rendered.frame == frame,
    {
        proof {
            use_type_invariant(&*self);
        }
        let mut steps: Vec<FrameStep> = Vec::new();
        steps.push(FrameStep::RecallStagingBelt);

        let (prepare_tasks, prepare_command_buffer) = self.prepare_frame_data(instruction);
        steps.push(FrameStep::Prepare);
        steps.push(FrameStep::Upload);

        let (
            picker_command_buffer,
            interface_command_buffer,
            directional_shadow_command_buffer,
            point_shadow_command_buffer,
            geometry_command_buffer,
            screen_command_buffer,
        ) = self.draw_frame(&frame, instruction);
        let draw_tasks = plan_draw_tasks();
        steps.push(FrameStep::Draw);

        steps.push(FrameStep::FinishStagingBelt);

        if self.queue_picker_value() {
            steps.push(FrameStep::QueuePickerValue);
        }
        let submission = self.wait_and_submit_frame(
            prepare_command_buffer,
            interface_command_buffer,
            picker_command_buffer,
            directional_shadow_command_buffer,
            point_shadow_command_buffer,
            geometry_command_buffer,
            screen_command_buffer,
        );
        steps.push(FrameStep::WaitForDevice);
        steps.push(FrameStep::Submit);

        steps.push(FrameStep::Present);

        let state = self.state;
        let mut frame_pacer = state.frame_pacer;
        let cpu_stage = frame_pacer.end_frame_stage(state.cpu_stage, now);
        self.state = EngineState { frame_pacer, cpu_stage, ..state };
        steps.push(FrameStep::EndFrameStage);

        assert(steps@ =~= frame_steps());
        proof {
            reveal(frame_commands);
        }
        assert(recorded(submission@) =~= frame_submission(
            *instruction,
            old(self)@.picker_extent(),
            old(self)@.debug_overlays,
        ));
        RenderedFrame { steps, prepare_tasks, draw_tasks, submission, frame }
    }
}

/// Each frame submits exactly seven command buffers, in the order prepare,
/// interface, picker, directional shadow, point shadow, geometry, screen,
/// whatever the instruction holds.
pub proof fn lemma_frame_submits_seven_buffers_in_order(
    instruction: RenderInstruction,
    picker_extent: ScreenSize,
    debug_overlays: bool,
)
    ensures
        frame_submission(instruction, picker_extent, debug_overlays).len() == 7,
        frame_submission(instruction, picker_extent, debug_overlays).map_values(
            |buffer: RecordedCommands| buffer.kind,
        ) == seq![
            CommandBufferKind::Prepare,
            CommandBufferKind::Interface,
            CommandBufferKind::Picker,
            CommandBufferKind::DirectionalShadow,
            CommandBufferKind::PointShadow,
            CommandBufferKind::Geometry,
            CommandBufferKind::Screen,
        ],
{
    assert(frame_submission(instruction, picker_extent, debug_overlays).map_values(
        |buffer: RecordedCommands| buffer.kind,
    ) =~= seq![
        CommandBufferKind::Prepare,
        CommandBufferKind::Interface,
        CommandBufferKind::Picker,
        CommandBufferKind::DirectionalShadow,
        CommandBufferKind::PointShadow,
        CommandBufferKind::Geometry,
        CommandBufferKind::Screen,
    ]);
}

/// In every frame the prepare stage is over before the first upload, the
/// uploads are recorded before the passes, and the device has finished its
/// earlier work before anything of this frame is submitted.
pub proof fn lemma_frame_steps_are_ordered()
    ensures
        frame_steps().index_of(FrameStep::Prepare) < frame_steps().index_of(FrameStep::Upload),
        frame_steps().index_of(FrameStep::Upload) < frame_steps().index_of(FrameStep::Draw),
        frame_steps().index_of(FrameStep::Draw) < frame_steps().index_of(FrameStep::QueuePickerValue),
        frame_steps().index_of(FrameStep::QueuePickerValue) < frame_steps().index_of(FrameStep::WaitForDevice),
        frame_steps().index_of(FrameStep::WaitForDevice) < frame_steps().index_of(FrameStep::Submit),
        frame_steps().index_of(FrameStep::Submit) < frame_steps().index_of(FrameStep::Present),
        frame_steps().no_duplicates(),
{
    let steps = frame_steps();
    assert(steps[1] == FrameStep::Prepare);
    assert(steps[2] == FrameStep::Upload);
    assert(steps[3] == FrameStep::Draw);
    assert(steps[5] == FrameStep::QueuePickerValue);
    assert(steps[6] == FrameStep::WaitForDevice);
    assert(steps[7] == FrameStep::Submit);
    assert(steps[8] == FrameStep::Present);
    assert(steps.no_duplicates());
}

/// A fresh engine that is resumed twice for the same pixel format builds its
/// context on the first resume and keeps it on the second, whether or not
/// the application was suspended in between.
pub proof fn lemma_second_resume_keeps_context(
    state: EngineState,
    first: WindowSurface,
    second: WindowSurface,
    triple_buffering: bool,
    vsync: bool,
    limit_framerate: LimitFramerate,
    shadow_detail: ShadowDetail,
    texture_sampler_type: TextureSamplerType,
)
    requires
        state.wf(),
        state.phase() == EnginePhase::Uninitialized,
        first.format == second.format,
    ensures
        ({
            let resumed = state.resumed(
                first,
                triple_buffering,
                vsync,
                limit_framerate,
                shadow_detail,
                texture_sampler_type,
            );
            let again = resumed.resumed(
                second,
                triple_buffering,
                vsync,
                limit_framerate,
                shadow_detail,
                texture_sampler_type,
            );
            let after_suspension = resumed.suspended().resumed(
                second,
                triple_buffering,
                vsync,
                limit_framerate,
                shadow_detail,
                texture_sampler_type,
            );
            &&& state.rebuilds_context_on_resume(first)
            &&& resumed.phase() == EnginePhase::Active
            &&& !resumed.rebuilds_context_on_resume(second)
            &&& !resumed.suspended().rebuilds_context_on_resume(second)
            &&& again.engine_context == resumed.engine_context
            &&& after_suspension.engine_context == resumed.engine_context
        }),
{
}

/// A resume builds a new context exactly when it creates a surface whose
/// pixel format differs from the format of the context that exists, or when
/// no context exists. The new context differs in its generation from the
/// one it replaces.
pub proof fn lemma_resume_rebuilds_on_format_change(
    state: EngineState,
    window: WindowSurface,
    triple_buffering: bool,
    vsync: bool,
    limit_framerate: LimitFramerate,
    shadow_detail: ShadowDetail,
    texture_sampler_type: TextureSamplerType,
)
    requires
        state.wf(),
    ensures
        ({
            let resumed = state.resumed(
                window,
                triple_buffering,
                vsync,
                limit_framerate,
                shadow_detail,
                texture_sampler_type,
            );
            &&& resumed.wf()
            &&& state.rebuilds_context_on_resume(window) <==> state.surface.is_none() && (match state.engine_context {
                Some(context) => context.global_context.surface_format != window.format,
                None => true,
            })
            &&& !state.rebuilds_context_on_resume(window) ==> resumed.engine_context == state.engine_context
            &&& state.rebuilds_context_on_resume(window) ==> {
                &&& resumed.engine_context.is_some()
                &&& resumed.engine_context.unwrap().global_context.surface_format == window.format
                &&& match state.engine_context {
                    Some(context) => resumed.engine_context.unwrap().generation != context.generation,
                    None => true,
                }
            }
        }),
{
}

/// A change of the shadow detail gives the shadow maps the size of the new
/// detail level and replaces nothing else: the context keeps its generation,
/// and the screen-sized render targets and the sampler stay the ones they
/// were.
pub proof fn lemma_shadow_detail_replaces_only_shadow_maps(state: EngineState, shadow_detail: ShadowDetail)
    requires
        state.wf(),
        state.engine_context.is_some(),
    ensures
        ({
            let changed = state.with_shadow_detail(shadow_detail);
            let before = state.engine_context.unwrap();
            let after = changed.engine_context.unwrap();
            &&& changed.wf()
            &&& changed.engine_context.is_some()
            &&& after.generation == before.generation
            &&& after.global_context.shadow_detail == shadow_detail
            &&& after.global_context.directional_shadow_size().width == shadow_detail.directional_shadow_resolution()
            &&& after.global_context.point_shadow_size().width == shadow_detail.point_shadow_resolution()
            &&& after.global_context.shadow_size_textures != before.global_context.shadow_size_textures
            &&& after.global_context.screen_size_textures == before.global_context.screen_size_textures
            &&& after.global_context.screen_size == before.global_context.screen_size
            &&& after.global_context.texture_sampler == before.global_context.texture_sampler
            &&& after.global_context.texture_sampler_type == before.global_context.texture_sampler_type
            &&& after.global_context.surface_format == before.global_context.surface_format
            &&& changed.surface == state.surface
            &&& changed.previous_surface_texture_format == state.previous_surface_texture_format
        }),
{
}

/// Whatever happens to a consistent engine, it stays consistent: a context
/// exists exactly if a pixel format was negotiated, it is built for that
/// format, and so is the surface.
pub proof fn lemma_engine_stays_consistent(
    state: EngineState,
    window: WindowSurface,
    screen_size: ScreenSize,
    enabled: bool,
    limit_framerate: LimitFramerate,
    shadow_detail: ShadowDetail,
    texture_sampler_type: TextureSamplerType,
    now: u64,
)
    requires
        state.wf(),
    ensures
        state.resumed(window, enabled, enabled, limit_framerate, shadow_detail, texture_sampler_type).wf(),
        state.suspended().wf(),
        state.resized(screen_size).wf(),
        state.with_vsync(enabled).wf(),
        state.with_triple_buffering(enabled).wf(),
        state.with_limit_framerate(limit_framerate).wf(),
        state.with_texture_sampler_type(texture_sampler_type).wf(),
        state.with_shadow_detail(shadow_detail).wf(),
        state.awaited(now).wf(),
        state.rendered(now).wf(),
        state.surface.is_some() ==> state.engine_context.is_some(),
{
}

/// What an engine was set up with stays with it.
pub proof fn lemma_setup_is_kept(
    state: EngineState,
    window: WindowSurface,
    screen_size: ScreenSize,
    enabled: bool,
    limit_framerate: LimitFramerate,
    shadow_detail: ShadowDetail,
    texture_sampler_type: TextureSamplerType,
    now: u64,
)
    ensures
        ({
            let same = |other: EngineState|
                other.debug_overlays == state.debug_overlays && other.release_surface_on_suspend
                    == state.release_surface_on_suspend;
            &&& same(state.resumed(window, enabled, enabled, limit_framerate, shadow_detail, texture_sampler_type))
            &&& same(state.suspended())
            &&& same(state.resized(screen_size))
            &&& same(state.with_vsync(enabled))
            &&& same(state.with_triple_buffering(enabled))
            &&& same(state.with_limit_framerate(limit_framerate))
            &&& same(state.with_texture_sampler_type(texture_sampler_type))
            &&& same(state.with_shadow_detail(shadow_detail))
            &&& same(state.awaited(now))
            &&& same(state.rendered(now))
        }),
{
}

/// An instruction with more point lights that cast a shadow than the engine
/// has shadow cubes for is never rendered, whatever state the engine is in.
pub proof fn lemma_too_many_shadow_casters_are_refused(state: EngineState, instruction: RenderInstruction)
    requires
        instruction.point_light_shadow_casters > NUMBER_OF_POINT_LIGHTS_WITH_SHADOWS,
    ensures
        !instruction.is_renderable(),
        !state.can_render(instruction),
{
}

/// An invalid surface is dealt with before the next frame is acquired: after
/// the wait the surface is valid, the render targets have the size of the
/// surface, and nothing else of the context was replaced. A surface that was
/// valid leaves the context as it is.
pub proof fn lemma_invalid_surface_is_reconfigured(state: EngineState, now: u64)
    requires
        state.wf(),
        state.surface.is_some(),
    ensures
        ({
            let awaited = state.awaited(now);
            let surface = state.surface.unwrap();
            let before = state.engine_context.unwrap().global_context;
            let after = awaited.engine_context.unwrap().global_context;
            &&& awaited.surface == Some(surface.reconfigured())
            &&& !awaited.surface.unwrap().invalid
            &&& awaited.engine_context.is_some()
            &&& awaited.engine_context.unwrap().generation == state.engine_context.unwrap().generation
            &&& after.shadow_size_textures == before.shadow_size_textures
            &&& after.texture_sampler == before.texture_sampler
            &&& after.surface_format == before.surface_format
            &&& surface.invalid ==> after.screen_size == surface.window_size && after.screen_size_textures
                != before.screen_size_textures
            &&& !surface.invalid ==> after == before
        }),
{
}

/// A change of the texture sampler replaces the sampler and nothing else.
pub proof fn lemma_sampler_type_replaces_only_the_sampler(
    state: EngineState,
    texture_sampler_type: TextureSamplerType,
)
    requires
        state.wf(),
        state.engine_context.is_some(),
    ensures
        ({
            let changed = state.with_texture_sampler_type(texture_sampler_type);
            let before = state.engine_context.unwrap();
            let after = changed.engine_context.unwrap();
            &&& changed.engine_context.is_some()
            &&& after.generation == before.generation
            &&& after.global_context.texture_sampler_type == texture_sampler_type
            &&& after.global_context.texture_sampler != before.global_context.texture_sampler
            &&& after.global_context.shadow_size_textures == before.global_context.shadow_size_textures
            &&& after.global_context.screen_size_textures == before.global_context.screen_size_textures
            &&& after.global_context.shadow_detail == before.global_context.shadow_detail
            &&& after.global_context.screen_size == before.global_context.screen_size
            &&& changed.surface == state.surface
        }),
{
}

/// With a limited frame rate no frame begins before one refresh interval
/// after the frame before it, as long as the clock can tell the time. A
/// frame never begins before the wait for it began, and a frame that is
/// late does not wait at all.
pub proof fn lemma_pacing_keeps_the_interval(state: EngineState, now: u64)
    requires
        state.limit_framerate,
        state.frame_pacer.last_begin.is_some(),
    ensures
        ({
            let earliest = state.frame_pacer.last_begin.unwrap() + state.frame_pacer.frame_interval();
            &&& state.frame_begin(now) >= now
            &&& earliest <= u64::MAX ==> state.frame_begin(now) >= earliest
            &&& now >= earliest ==> state.pacing_wait(now) == 0 && state.frame_begin(now) == now
            &&& now < earliest <= u64::MAX ==> state.frame_begin(now) == earliest
            &&& state.awaited(now).cpu_stage.begin == state.frame_begin(now)
            &&& state.awaited(now).frame_pacer.last_begin == Some(state.frame_begin(now))
        }),
{
}

/// Without a limit on the frame rate the next frame begins at once.
pub proof fn lemma_unlimited_frames_begin_at_once(state: EngineState, now: u64)
    requires
        !state.limit_framerate,
    ensures
        state.pacing_wait(now) == 0,
        state.frame_begin(now) == now,
{
}

} // verus!
