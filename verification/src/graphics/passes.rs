//! The render passes, their drawers, and the commands they record.

pub mod water;

use vstd::prelude::*;

verus! {

/// The number of point lights that can cast shadows in one frame.
pub const NUMBER_OF_POINT_LIGHTS_WITH_SHADOWS: usize = 6;

/// The number of faces of a point light's shadow cube.
pub const NUMBER_OF_CUBE_FACES: u32 = 6;

/// A render pass. Each pass has its own render targets, its own bindings
/// and its own command buffer.
#[derive(Clone, Copy, Debug, PartialEq, Eq, Structural)]
pub enum Pass {
    Picker,
    Interface,
    DirectionalShadow,
    PointShadow,
    Geometry,
    Screen,
}

/// A drawer: one pipeline with its buffers, for one kind of draw item.
#[derive(Clone, Copy, Debug, PartialEq, Eq, Structural)]
pub enum Drawer {
    InterfaceRectangle,
    PickerEntity,
    PickerTile,
    DirectionalShadowModel,
    DirectionalShadowEntity,
    DirectionalShadowIndicator,
    PointShadowEntity,
    PointShadowModel,
    PointShadowIndicator,
    GeometryModel,
    GeometryIndicator,
    GeometryEntity,
    GeometryWater,
    ScreenAmbientLight,
    ScreenDirectionalLight,
    ScreenPointLight,
    ScreenWaterLight,
    ScreenRectangle,
    ScreenEffect,
    ScreenOverlay,
    PickerMarker,
    ScreenAabb,
    ScreenCircle,
    ScreenBuffer,
}

impl Drawer {
    /// The pass that the drawer is built against and draws into.
    pub open spec fn spec_pass(self) -> Pass {
        match self {
            Drawer::InterfaceRectangle => Pass::Interface,
            Drawer::PickerEntity | Drawer::PickerTile | Drawer::PickerMarker => Pass::Picker,
            Drawer::DirectionalShadowModel
            | Drawer::DirectionalShadowEntity
            | Drawer::DirectionalShadowIndicator => Pass::DirectionalShadow,
            Drawer::PointShadowEntity | Drawer::PointShadowModel | Drawer::PointShadowIndicator => Pass::PointShadow,
            Drawer::GeometryModel
            | Drawer::GeometryIndicator
            | Drawer::GeometryEntity
            | Drawer::GeometryWater => Pass::Geometry,
            Drawer::ScreenAmbientLight
            | Drawer::ScreenDirectionalLight
            | Drawer::ScreenPointLight
            | Drawer::ScreenWaterLight
            | Drawer::ScreenRectangle
            | Drawer::ScreenEffect
            | Drawer::ScreenOverlay
            | Drawer::ScreenAabb
            | Drawer::ScreenCircle
            | Drawer::ScreenBuffer => Pass::Screen,
        }
    }

    /// Whether the drawer is a debugging aid, which exists only in an engine
    /// that was set up with debug overlays.
    pub open spec fn spec_is_debug_aid(self) -> bool {
        match self {
            Drawer::PickerMarker | Drawer::ScreenAabb | Drawer::ScreenCircle | Drawer::ScreenBuffer => true,
            _ => false,
        }
    }

    #[verifier::when_used_as_spec(spec_pass)]
    pub fn pass(self) -> (pass: Pass)
        ensures
            pass == self.spec_pass(),
    {
        match self {
            Drawer::InterfaceRectangle => Pass::Interface,
            Drawer::PickerEntity | Drawer::PickerTile | Drawer::PickerMarker => Pass::Picker,
            Drawer::DirectionalShadowModel
            | Drawer::DirectionalShadowEntity
            | Drawer::DirectionalShadowIndicator => Pass::DirectionalShadow,
            Drawer::PointShadowEntity | Drawer::PointShadowModel | Drawer::PointShadowIndicator => Pass::PointShadow,
            Drawer::GeometryModel
            | Drawer::GeometryIndicator
            | Drawer::GeometryEntity
            | Drawer::GeometryWater => Pass::Geometry,
            Drawer::ScreenAmbientLight
            | Drawer::ScreenDirectionalLight
            | Drawer::ScreenPointLight
            | Drawer::ScreenWaterLight
            | Drawer::ScreenRectangle
            | Drawer::ScreenEffect
            | Drawer::ScreenOverlay
            | Drawer::ScreenAabb
            | Drawer::ScreenCircle
            | Drawer::ScreenBuffer => Pass::Screen,
        }
    }

    #[verifier::when_used_as_spec(spec_is_debug_aid)]
    pub fn is_debug_aid(self) -> (debug_aid: bool)
        ensures
            debug_aid == self.spec_is_debug_aid(),
    {
        match self {
            Drawer::PickerMarker | Drawer::ScreenAabb | Drawer::ScreenCircle | Drawer::ScreenBuffer => true,
            _ => false,
        }
    }
}

/// Something on the device that the engine builds, prepares or uploads.
#[derive(Clone, Copy, Debug, PartialEq, Eq, Structural)]
pub enum Resource {
    GlobalContext,
    PassContext(Pass),
    Drawer(Drawer),
}

/// Where a task of the prepare stage runs. Tasks of one group run one after
/// the other; different groups run at the same time.
#[derive(Clone, Copy, Debug, PartialEq, Eq, Structural)]
pub enum TaskGroup {
    /// On the thread that renders the frame.
    Caller,
    /// On a worker of the task pool, with the group's number.
    Worker(usize),
}

/// One task of the prepare stage: batching the frame's data for a resource.
#[derive(Clone, Copy, Debug, PartialEq, Eq, Structural)]
pub struct PrepareTask {
    pub group: TaskGroup,
    pub resource: Resource,
}

/// One task of the draw stage: recording the command buffer of a pass.
#[derive(Clone, Copy, Debug, PartialEq, Eq, Structural)]
pub struct DrawTask {
    pub group: TaskGroup,
    pub pass: Pass,
}

/// A layer of screen rectangles.
#[derive(Clone, Copy, Debug, PartialEq, Eq, Structural)]
pub enum Layer {
    Bottom,
    Middle,
    Top,
}

/// Which shadow map a sub-pass of the point shadow pass renders.
#[derive(Clone, Copy, Debug, PartialEq, Eq, Structural)]
pub struct PointShadowData {
    pub shadow_caster_index: usize,
    pub face_index: u32,
}

/// What a pass is told when it begins.
#[derive(Clone, Copy, Debug, PartialEq, Eq, Structural)]
pub enum PassData {
    /// The pass needs no data.
    Nothing,
    /// For the interface pass: whether the target is cleared first.
    Clear(bool),
    PointShadow(PointShadowData),
}

/// The part of the frame's instruction that is handed to a drawer.
#[derive(Clone, Copy, Debug, PartialEq, Eq, Structural)]
pub enum DrawData {
    /// The drawer needs no data of the instruction.
    Nothing,
    MapPickerTileVertexBuffer,
    Entities,
    Interface,
    DirectionalShadowModels,
    DirectionalShadowEntities,
    Indicator,
    PointShadowModels(PointShadowData),
    PointShadowEntities(PointShadowData),
    Models { show_wireframe: bool },
    MapWaterVertexBuffer,
    Rectangles(Layer),
    Effects,
    RenderSettings,
}

/// A command that is recorded into a command buffer.
#[derive(Clone, Copy, Debug, PartialEq, Eq, Structural)]
pub enum Command {
    /// Stage the data that a resource prepared for this frame.
    Upload(Resource),
    /// Open a render pass and bind the pass's bindings.
    BeginRenderPass { pass: Pass, pass_data: PassData },
    /// Let a drawer record its draw calls into the open pass.
    Draw { drawer: Drawer, data: DrawData },
    /// Close the open render pass.
    EndRenderPass,
    /// Copy one texel of the picker texture into the picker value buffer.
    CopyPickerTexel { x: u32, y: u32 },
}

/// The seven command buffers of a frame.
#[derive(Clone, Copy, Debug, PartialEq, Eq, Structural)]
pub enum CommandBufferKind {
    Prepare,
    Interface,
    Picker,
    DirectionalShadow,
    PointShadow,
    Geometry,
    Screen,
}

/// The contents of a command buffer.
pub struct RecordedCommands {
    pub kind: CommandBufferKind,
    pub commands: Seq<Command>,
}

/// A finished command buffer.
#[derive(Debug)]
pub struct CommandBuffer {
    pub kind: CommandBufferKind,
    pub commands: Vec<Command>,
}

impl View for CommandBuffer {
    type V = RecordedCommands;

    open spec fn view(&self) -> RecordedCommands {
        RecordedCommands { kind: self.kind, commands: self.commands@ }
    }
}

} // verus!
