//! What one frame records: the tasks of the prepare stage, the uploads, and
//! the commands of each of the six passes.

pub mod filters;
pub mod layers;
pub mod lights;
pub mod picker;
pub mod shadows;
pub mod stages;

use vstd::prelude::*;

use crate::graphics::instruction::{RenderInstruction, RenderSettings};
use crate::graphics::passes::{
    Command, CommandBuffer, CommandBufferKind, DrawData, DrawTask, Drawer, Layer, Pass, PassData, PointShadowData,
    PrepareTask, Resource, TaskGroup, NUMBER_OF_CUBE_FACES,
};
use crate::graphics::settings::{ScreenPosition, ScreenSize};

verus! {

/// The command that lets `drawer` draw `data`.
pub open spec fn draw(drawer: Drawer, data: DrawData) -> Command {
    Command::Draw { drawer, data }
}

/// The command that opens `pass`.
pub open spec fn begin(pass: Pass, pass_data: PassData) -> Command {
    Command::BeginRenderPass { pass, pass_data }
}

/// The draw of a layer of rectangles.
pub open spec fn rectangles(layer: Layer) -> Command {
    draw(Drawer::ScreenRectangle, DrawData::Rectangles(layer))
}

/// The draw of the interface over the world.
pub open spec fn overlay() -> Command {
    draw(Drawer::ScreenOverlay, DrawData::Nothing)
}

/// The draw of a light's contribution to the lit world.
pub open spec fn light(drawer: Drawer) -> Command {
    draw(drawer, DrawData::Nothing)
}

/// `command` if it is `present`, else nothing.
pub open spec fn optional(present: bool, command: Command) -> Seq<Command> {
    if present {
        seq![command]
    } else {
        Seq::empty()
    }
}

/// A task of the prepare stage.
pub open spec fn task(group: TaskGroup, resource: Resource) -> PrepareTask {
    PrepareTask { group, resource }
}

// ---------------------------------------------------------------------------
// Prepare stage
// ---------------------------------------------------------------------------

/// The tasks of the prepare stage. Tasks of one worker group touch the same
/// buffers and run in the order given; the groups run side by side with the
/// caller's own tasks.
pub open spec fn prepare_tasks(debug_overlays: bool) -> Seq<PrepareTask> {
    seq![
        task(TaskGroup::Worker(0), Resource::Drawer(Drawer::DirectionalShadowEntity)),
        task(TaskGroup::Worker(0), Resource::Drawer(Drawer::DirectionalShadowModel)),
        task(TaskGroup::Worker(1), Resource::Drawer(Drawer::GeometryEntity)),
        task(TaskGroup::Worker(1), Resource::Drawer(Drawer::GeometryModel)),
        task(TaskGroup::Worker(2), Resource::Drawer(Drawer::InterfaceRectangle)),
        task(TaskGroup::Worker(3), Resource::Drawer(Drawer::PointShadowEntity)),
        task(TaskGroup::Worker(3), Resource::Drawer(Drawer::PointShadowModel)),
        task(TaskGroup::Worker(4), Resource::Drawer(Drawer::ScreenDirectionalLight)),
        task(TaskGroup::Worker(4), Resource::Drawer(Drawer::ScreenEffect)),
        task(TaskGroup::Worker(5), Resource::Drawer(Drawer::ScreenPointLight)),
        task(TaskGroup::Worker(5), Resource::Drawer(Drawer::ScreenRectangle)),
    ] + (if debug_overlays {
        seq![
            task(TaskGroup::Worker(6), Resource::Drawer(Drawer::PickerMarker)),
            task(TaskGroup::Worker(6), Resource::Drawer(Drawer::ScreenAabb)),
            task(TaskGroup::Worker(7), Resource::Drawer(Drawer::ScreenBuffer)),
            task(TaskGroup::Worker(7), Resource::Drawer(Drawer::ScreenCircle)),
        ]
    } else {
        Seq::empty()
    }) + seq![
        task(TaskGroup::Caller, Resource::GlobalContext),
        task(TaskGroup::Caller, Resource::PassContext(Pass::DirectionalShadow)),
        task(TaskGroup::Caller, Resource::PassContext(Pass::PointShadow)),
        task(TaskGroup::Caller, Resource::Drawer(Drawer::PickerEntity)),
    ]
}

/// The resources whose data is uploaded, in the order of the uploads. The
/// order is the same in every frame.
pub open spec fn uploads(debug_overlays: bool) -> Seq<Resource> {
    seq![
        Resource::Drawer(Drawer::DirectionalShadowEntity),
        Resource::Drawer(Drawer::DirectionalShadowModel),
        Resource::PassContext(Pass::DirectionalShadow),
        Resource::Drawer(Drawer::GeometryEntity),
        Resource::Drawer(Drawer::GeometryModel),
        Resource::GlobalContext,
        Resource::Drawer(Drawer::InterfaceRectangle),
        Resource::Drawer(Drawer::PickerEntity),
        Resource::Drawer(Drawer::PointShadowEntity),
        Resource::Drawer(Drawer::PointShadowModel),
        Resource::PassContext(Pass::PointShadow),
        Resource::Drawer(Drawer::ScreenDirectionalLight),
        Resource::Drawer(Drawer::ScreenEffect),
        Resource::Drawer(Drawer::ScreenPointLight),
        Resource::Drawer(Drawer::ScreenRectangle),
    ] + (if debug_overlays {
        seq![
            Resource::Drawer(Drawer::PickerMarker),
            Resource::Drawer(Drawer::ScreenAabb),
            Resource::Drawer(Drawer::ScreenBuffer),
            Resource::Drawer(Drawer::ScreenCircle),
        ]
    } else {
        Seq::empty()
    })
}

/// The commands of the prepare command buffer: one upload per resource.
#[verifier::opaque]
pub open spec fn upload_commands(debug_overlays: bool) -> Seq<Command> {
    uploads(debug_overlays).map_values(|resource: Resource| Command::Upload(resource))
}

fn push_task(tasks: &mut Vec<PrepareTask>, group: TaskGroup, resource: Resource)
    ensures
        final(tasks)@ == old(tasks)@.push(task(group, resource)),
{
    tasks.push(PrepareTask { group, resource });
}

/// Lists the tasks of the prepare stage.
pub fn plan_prepare_tasks(debug_overlays: bool) -> (tasks: Vec<PrepareTask>)
    ensures
        tasks@ == prepare_tasks(debug_overlays),
{
    let mut tasks: Vec<PrepareTask> = Vec::new();
    push_task(&mut tasks, TaskGroup::Worker(0), Resource::Drawer(Drawer::DirectionalShadowEntity));
    push_task(&mut tasks, TaskGroup::Worker(0), Resource::Drawer(Drawer::DirectionalShadowModel));
    push_task(&mut tasks, TaskGroup::Worker(1), Resource::Drawer(Drawer::GeometryEntity));
    push_task(&mut tasks, TaskGroup::Worker(1), Resource::Drawer(Drawer::GeometryModel));
    push_task(&mut tasks, TaskGroup::Worker(2), Resource::Drawer(Drawer::InterfaceRectangle));
    push_task(&mut tasks, TaskGroup::Worker(3), Resource::Drawer(Drawer::PointShadowEntity));
    push_task(&mut tasks, TaskGroup::Worker(3), Resource::Drawer(Drawer::PointShadowModel));
    push_task(&mut tasks, TaskGroup::Worker(4), Resource::Drawer(Drawer::ScreenDirectionalLight));
    push_task(&mut tasks, TaskGroup::Worker(4), Resource::Drawer(Drawer::ScreenEffect));
    push_task(&mut tasks, TaskGroup::Worker(5), Resource::Drawer(Drawer::ScreenPointLight));
    push_task(&mut tasks, TaskGroup::Worker(5), Resource::Drawer(Drawer::ScreenRectangle));
    if debug_overlays {
        push_task(&mut tasks, TaskGroup::Worker(6), Resource::Drawer(Drawer::PickerMarker));
        push_task(&mut tasks, TaskGroup::Worker(6), Resource::Drawer(Drawer::ScreenAabb));
        push_task(&mut tasks, TaskGroup::Worker(7), Resource::Drawer(Drawer::ScreenBuffer));
        push_task(&mut tasks, TaskGroup::Worker(7), Resource::Drawer(Drawer::ScreenCircle));
    }
    push_task(&mut tasks, TaskGroup::Caller, Resource::GlobalContext);
    push_task(&mut tasks, TaskGroup::Caller, Resource::PassContext(Pass::DirectionalShadow));
    push_task(&mut tasks, TaskGroup::Caller, Resource::PassContext(Pass::PointShadow));
    push_task(&mut tasks, TaskGroup::Caller, Resource::Drawer(Drawer::PickerEntity));
    assert(tasks@ =~= prepare_tasks(debug_overlays));
    tasks
}

fn push_upload(commands: &mut Vec<Command>, resource: Resource)
    ensures
        final(commands)@ == old(commands)@.push(Command::Upload(resource)),
{
    commands.push(Command::Upload(resource));
}

/// Records the prepare command buffer: the uploads of the frame's data, in
/// their fixed order.
pub fn record_uploads(debug_overlays: bool) -> (buffer: CommandBuffer)
    ensures
        buffer@.kind == CommandBufferKind::Prepare,
        buffer@.commands == upload_commands(debug_overlays),
{
    let mut commands: Vec<Command> = Vec::new();
    push_upload(&mut commands, Resource::Drawer(Drawer::DirectionalShadowEntity));
    push_upload(&mut commands, Resource::Drawer(Drawer::DirectionalShadowModel));
    push_upload(&mut commands, Resource::PassContext(Pass::DirectionalShadow));
    push_upload(&mut commands, Resource::Drawer(Drawer::GeometryEntity));
    push_upload(&mut commands, Resource::Drawer(Drawer::GeometryModel));
    push_upload(&mut commands, Resource::GlobalContext);
    push_upload(&mut commands, Resource::Drawer(Drawer::InterfaceRectangle));
    push_upload(&mut commands, Resource::Drawer(Drawer::PickerEntity));
    push_upload(&mut commands, Resource::Drawer(Drawer::PointShadowEntity));
    push_upload(&mut commands, Resource::Drawer(Drawer::PointShadowModel));
    push_upload(&mut commands, Resource::PassContext(Pass::PointShadow));
    push_upload(&mut commands, Resource::Drawer(Drawer::ScreenDirectionalLight));
    push_upload(&mut commands, Resource::Drawer(Drawer::ScreenEffect));
    push_upload(&mut commands, Resource::Drawer(Drawer::ScreenPointLight));
    push_upload(&mut commands, Resource::Drawer(Drawer::ScreenRectangle));
    if debug_overlays {
        push_upload(&mut commands, Resource::Drawer(Drawer::PickerMarker));
        push_upload(&mut commands, Resource::Drawer(Drawer::ScreenAabb));
        push_upload(&mut commands, Resource::Drawer(Drawer::ScreenBuffer));
        push_upload(&mut commands, Resource::Drawer(Drawer::ScreenCircle));
    }
    proof {
        reveal(upload_commands);
    }
    assert(commands@ =~= upload_commands(debug_overlays));
    CommandBuffer { kind: CommandBufferKind::Prepare, commands }
}

// ---------------------------------------------------------------------------
// Draw stage
// ---------------------------------------------------------------------------

/// The tasks of the draw stage. Each pass has its own encoder, so the
/// passes are recorded side by side: the screen pass by the caller, each
/// other pass by a worker.
pub open spec fn draw_tasks() -> Seq<DrawTask> {
    seq![
        DrawTask { group: TaskGroup::Worker(0), pass: Pass::Picker },
        DrawTask { group: TaskGroup::Worker(1), pass: Pass::Interface },
        DrawTask { group: TaskGroup::Worker(2), pass: Pass::DirectionalShadow },
        DrawTask { group: TaskGroup::Worker(3), pass: Pass::PointShadow },
        DrawTask { group: TaskGroup::Worker(4), pass: Pass::Geometry },
        DrawTask { group: TaskGroup::Caller, pass: Pass::Screen },
    ]
}

/// Lists the tasks of the draw stage.
pub fn plan_draw_tasks() -> (tasks: Vec<DrawTask>)
    ensures
        tasks@ == draw_tasks(),
{
    let mut tasks: Vec<DrawTask> = Vec::new();
    tasks.push(DrawTask { group: TaskGroup::Worker(0), pass: Pass::Picker });
    tasks.push(DrawTask { group: TaskGroup::Worker(1), pass: Pass::Interface });
    tasks.push(DrawTask { group: TaskGroup::Worker(2), pass: Pass::DirectionalShadow });
    tasks.push(DrawTask { group: TaskGroup::Worker(3), pass: Pass::PointShadow });
    tasks.push(DrawTask { group: TaskGroup::Worker(4), pass: Pass::Geometry });
    tasks.push(DrawTask { group: TaskGroup::Caller, pass: Pass::Screen });
    assert(tasks@ =~= draw_tasks());
    tasks
}

/// Where the task that records a pass stands among the tasks of the draw
/// stage.
pub open spec fn task_of_pass(pass: Pass) -> int {
    match pass {
        Pass::Picker => 0,
        Pass::Interface => 1,
        Pass::DirectionalShadow => 2,
        Pass::PointShadow => 3,
        Pass::Geometry => 4,
        Pass::Screen => 5,
    }
}

/// Every pass is recorded by one task, no two passes by the same task
/// group, and the screen pass by the caller.
pub proof fn lemma_each_pass_is_recorded_once()
    ensures
        forall|pass: Pass|
            0 <= #[trigger] task_of_pass(pass) < draw_tasks().len() && draw_tasks()[task_of_pass(pass)].pass
                == pass,
        forall|i: int, j: int|
            0 <= i < draw_tasks().len() && 0 <= j < draw_tasks().len() && i != j ==> (#[trigger] draw_tasks()[i]).pass
                != (#[trigger] draw_tasks()[j]).pass && draw_tasks()[i].group != draw_tasks()[j].group,
        forall|index: int|
            0 <= index < draw_tasks().len() ==> ((#[trigger] draw_tasks()[index]).group == TaskGroup::Caller
                <==> draw_tasks()[index].pass == Pass::Screen),
{
}

/// The texel of the picker texture that lies under the cursor: the cursor's
/// position, held inside a texture of the given extent.
pub open spec fn picker_texel(extent: ScreenSize, position: ScreenPosition) -> (u32, u32)
    recommends
        extent.width >= 1,
        extent.height >= 1,
{
    (
        if position.left < extent.width - 1 {
            position.left
        } else {
            (extent.width - 1) as u32
        },
        if position.top < extent.height - 1 {
            position.top
        } else {
            (extent.height - 1) as u32
        },
    )
}

/// The commands of the picker pass: the tiles, then the entities, then the
/// copy of the texel under the cursor into the picker value buffer.
#[verifier::opaque]
pub open spec fn picker_commands(
    instruction: RenderInstruction,
    extent: ScreenSize,
    debug_overlays: bool,
) -> Seq<Command> {
    seq![
        begin(Pass::Picker, PassData::Nothing),
        draw(Drawer::PickerTile, DrawData::MapPickerTileVertexBuffer),
        draw(Drawer::PickerEntity, DrawData::Entities),
    ] + optional(debug_overlays, draw(Drawer::PickerMarker, DrawData::Nothing)) + seq![
        Command::EndRenderPass,
        Command::CopyPickerTexel {
            x: picker_texel(extent, instruction.picker_position).0,
            y: picker_texel(extent, instruction.picker_position).1,
        },
    ]
}

/// The commands of the interface pass.
#[verifier::opaque]
pub open spec fn interface_commands(instruction: RenderInstruction) -> Seq<Command> {
    seq![
        begin(Pass::Interface, PassData::Clear(instruction.clear_interface)),
        draw(Drawer::InterfaceRectangle, DrawData::Interface),
        Command::EndRenderPass,
    ]
}

/// The commands of the directional shadow pass.
#[verifier::opaque]
pub open spec fn directional_shadow_commands() -> Seq<Command> {
    seq![
        begin(Pass::DirectionalShadow, PassData::Nothing),
        draw(Drawer::DirectionalShadowModel, DrawData::DirectionalShadowModels),
        draw(Drawer::DirectionalShadowIndicator, DrawData::Indicator),
        draw(Drawer::DirectionalShadowEntity, DrawData::DirectionalShadowEntities),
        Command::EndRenderPass,
    ]
}

/// The commands of one sub-pass of the point shadow pass: one face of one
/// light's shadow cube.
pub open spec fn point_shadow_face_commands(data: PointShadowData) -> Seq<Command> {
    seq![
        begin(Pass::PointShadow, PassData::PointShadow(data)),
        draw(Drawer::PointShadowModel, DrawData::PointShadowModels(data)),
        draw(Drawer::PointShadowEntity, DrawData::PointShadowEntities(data)),
        draw(Drawer::PointShadowIndicator, DrawData::Indicator),
        Command::EndRenderPass,
    ]
}

/// The commands of the first `faces` faces of one light's shadow cube.
pub open spec fn point_shadow_caster_commands(shadow_caster_index: usize, faces: nat) -> Seq<Command>
    decreases faces,
{
    if faces == 0 {
        Seq::empty()
    } else {
        point_shadow_caster_commands(shadow_caster_index, (faces - 1) as nat) + point_shadow_face_commands(
            PointShadowData { shadow_caster_index, face_index: (faces - 1) as u32 },
        )
    }
}

/// The commands of the point shadow pass for the first `casters` lights:
/// light by light, and for each light face by face.
pub open spec fn point_shadow_commands(casters: nat) -> Seq<Command>
    decreases casters,
{
    if casters == 0 {
        Seq::empty()
    } else {
        point_shadow_commands((casters - 1) as nat) + point_shadow_caster_commands(
            (casters - 1) as usize,
            NUMBER_OF_CUBE_FACES as nat,
        )
    }
}

/// The commands of the geometry pass. Water is drawn last, and only on a map
/// that has water.
#[verifier::opaque]
pub open spec fn geometry_commands(instruction: RenderInstruction) -> Seq<Command> {
    seq![
        begin(Pass::Geometry, PassData::Nothing),
        draw(Drawer::GeometryModel, DrawData::Models { show_wireframe: instruction.render_settings.show_wireframe }),
        draw(Drawer::GeometryIndicator, DrawData::Indicator),
        draw(Drawer::GeometryEntity, DrawData::Entities),
    ] + optional(instruction.has_map_water, draw(Drawer::GeometryWater, DrawData::MapWaterVertexBuffer))
        + seq![Command::EndRenderPass]
}

/// The lighting of the screen pass. Ambient, directional and point light are
/// each drawn only if the settings show them; the light on the water is
/// always drawn.
#[verifier::opaque]
pub open spec fn lighting_commands(settings: RenderSettings) -> Seq<Command> {
    optional(settings.show_ambient_light, draw(Drawer::ScreenAmbientLight, DrawData::Nothing)) + optional(
        settings.show_directional_light,
        draw(Drawer::ScreenDirectionalLight, DrawData::Nothing),
    ) + optional(settings.show_point_lights, draw(Drawer::ScreenPointLight, DrawData::Nothing))
        + seq![draw(Drawer::ScreenWaterLight, DrawData::Nothing)]
}

/// The debugging shapes that are drawn over the lit world.
#[verifier::opaque]
pub open spec fn debug_shape_commands(debug_overlays: bool) -> Seq<Command> {
    optional(debug_overlays, draw(Drawer::ScreenAabb, DrawData::Nothing)) + optional(
        debug_overlays,
        draw(Drawer::ScreenCircle, DrawData::Nothing),
    )
}

/// The bottom layer of rectangles with what lies directly above it: the
/// effects, and the view of the render buffers for debugging.
#[verifier::opaque]
pub open spec fn bottom_layer_commands(debug_overlays: bool) -> Seq<Command> {
    seq![
        draw(Drawer::ScreenRectangle, DrawData::Rectangles(Layer::Bottom)),
        draw(Drawer::ScreenEffect, DrawData::Effects),
    ] + optional(debug_overlays, draw(Drawer::ScreenBuffer, DrawData::RenderSettings))
}

/// The middle layer of rectangles with the debugging boxes above it.
#[verifier::opaque]
pub open spec fn middle_layer_commands(debug_overlays: bool) -> Seq<Command> {
    seq![draw(Drawer::ScreenRectangle, DrawData::Rectangles(Layer::Middle))] + optional(
        debug_overlays,
        draw(Drawer::ScreenAabb, DrawData::Nothing),
    )
}

/// The interface, if it is shown, and the top layer of rectangles above it.
/// The top layer ends the pass.
#[verifier::opaque]
pub open spec fn top_layer_commands(show_interface: bool) -> Seq<Command> {
    optional(show_interface, draw(Drawer::ScreenOverlay, DrawData::Nothing)) + seq![
        draw(Drawer::ScreenRectangle, DrawData::Rectangles(Layer::Top)),
        Command::EndRenderPass,
    ]
}

/// The commands of the screen pass, which composes the picture: the
/// lighting, then the three layers of rectangles from bottom to top, with
/// the interface between the middle and the top layer.
#[verifier::opaque]
pub open spec fn screen_commands(instruction: RenderInstruction, debug_overlays: bool) -> Seq<Command> {
    seq![begin(Pass::Screen, PassData::Nothing)] + lighting_commands(instruction.render_settings)
        + debug_shape_commands(debug_overlays) + bottom_layer_commands(debug_overlays) + middle_layer_commands(
        debug_overlays,
    ) + top_layer_commands(instruction.show_interface)
}

fn push_begin(commands: &mut Vec<Command>, pass: Pass, pass_data: PassData)
    ensures
        final(commands)@ == old(commands)@.push(begin(pass, pass_data)),
{
    commands.push(Command::BeginRenderPass { pass, pass_data });
}

fn push_draw(commands: &mut Vec<Command>, drawer: Drawer, data: DrawData)
    ensures
        final(commands)@ == old(commands)@.push(draw(drawer, data)),
{
    commands.push(Command::Draw { drawer, data });
}

fn push_optional_draw(commands: &mut Vec<Command>, present: bool, drawer: Drawer, data: DrawData)
    ensures
        final(commands)@ == old(commands)@ + optional(present, draw(drawer, data)),
{
    if present {
        commands.push(Command::Draw { drawer, data });
    }
    assert(commands@ =~= old(commands)@ + optional(present, draw(drawer, data)));
}

/// Records the picker pass.
pub fn record_picker_pass(instruction: &RenderInstruction, extent: ScreenSize, debug_overlays: bool) -> (buffer:
    CommandBuffer)
    requires
        extent.width >= 1,
        extent.height >= 1,
    ensures
        buffer@.kind == CommandBufferKind::Picker,
        buffer@.commands == picker_commands(*instruction, extent, debug_overlays),
{
    let mut commands: Vec<Command> = Vec::new();
    push_begin(&mut commands, Pass::Picker, PassData::Nothing);
    push_draw(&mut commands, Drawer::PickerTile, DrawData::MapPickerTileVertexBuffer);
    push_draw(&mut commands, Drawer::PickerEntity, DrawData::Entities);
    push_optional_draw(&mut commands, debug_overlays, Drawer::PickerMarker, DrawData::Nothing);
    commands.push(Command::EndRenderPass);
    let x: u32 = if instruction.picker_position.left < extent.width - 1 {
        instruction.picker_position.left
    } else {
        extent.width - 1
    };
    let y: u32 = if instruction.picker_position.top < extent.height - 1 {
        instruction.picker_position.top
    } else {
        extent.height - 1
    };
    commands.push(Command::CopyPickerTexel { x, y });
    proof {
        reveal(picker_commands);
    }
    assert(commands@ =~= picker_commands(*instruction, extent, debug_overlays));
    CommandBuffer { kind: CommandBufferKind::Picker, commands }
}

/// Records the interface pass.
pub fn record_interface_pass(instruction: &RenderInstruction) -> (buffer: CommandBuffer)
    ensures
        buffer@.kind == CommandBufferKind::Interface,
        buffer@.commands == interface_commands(*instruction),
{
    let mut commands: Vec<Command> = Vec::new();
    push_begin(&mut commands, Pass::Interface, PassData::Clear(instruction.clear_interface));
    push_draw(&mut commands, Drawer::InterfaceRectangle, DrawData::Interface);
    commands.push(Command::EndRenderPass);
    proof {
        reveal(interface_commands);
    }
    assert(commands@ =~= interface_commands(*instruction));
    CommandBuffer { kind: CommandBufferKind::Interface, commands }
}

/// Records the directional shadow pass.
pub fn record_directional_shadow_pass() -> (buffer: CommandBuffer)
    ensures
        buffer@.kind == CommandBufferKind::DirectionalShadow,
        buffer@.commands == directional_shadow_commands(),
{
    let mut commands: Vec<Command> = Vec::new();
    push_begin(&mut commands, Pass::DirectionalShadow, PassData::Nothing);
    push_draw(&mut commands, Drawer::DirectionalShadowModel, DrawData::DirectionalShadowModels);
    push_draw(&mut commands, Drawer::DirectionalShadowIndicator, DrawData::Indicator);
    push_draw(&mut commands, Drawer::DirectionalShadowEntity, DrawData::DirectionalShadowEntities);
    commands.push(Command::EndRenderPass);
    proof {
        reveal(directional_shadow_commands);
    }
    assert(commands@ =~= directional_shadow_commands());
    CommandBuffer { kind: CommandBufferKind::DirectionalShadow, commands }
}

/// Records the point shadow pass: one sub-pass for each face of the shadow
/// cube of each light that casts a shadow.
pub fn record_point_shadow_pass(instruction: &RenderInstruction) -> (buffer: CommandBuffer)
    ensures
        buffer@.kind == CommandBufferKind::PointShadow,
        buffer@.commands == point_shadow_commands(instruction.point_light_shadow_casters as nat),
{
    let mut commands: Vec<Command> = Vec::new();
    let mut shadow_caster_index: usize = 0;
    while shadow_caster_index < instruction.point_light_shadow_casters
        invariant
            shadow_caster_index <= instruction.point_light_shadow_casters,
            commands@ == point_shadow_commands(shadow_caster_index as nat),
        decreases instruction.point_light_shadow_casters - shadow_caster_index,
    {
        let mut face_index: u32 = 0;
        while face_index < NUMBER_OF_CUBE_FACES
            invariant
                shadow_caster_index < instruction.point_light_shadow_casters,
                face_index <= NUMBER_OF_CUBE_FACES,
                commands@ == point_shadow_commands(shadow_caster_index as nat) + point_shadow_caster_commands(
                    shadow_caster_index,
                    face_index as nat,
                ),
            decreases NUMBER_OF_CUBE_FACES - face_index,
        {
            let pass_data = PointShadowData { shadow_caster_index, face_index };
            push_begin(&mut commands, Pass::PointShadow, PassData::PointShadow(pass_data));
            push_draw(&mut commands, Drawer::PointShadowModel, DrawData::PointShadowModels(pass_data));
            push_draw(&mut commands, Drawer::PointShadowEntity, DrawData::PointShadowEntities(pass_data));
            push_draw(&mut commands, Drawer::PointShadowIndicator, DrawData::Indicator);
            commands.push(Command::EndRenderPass);
            assert(commands@ =~= point_shadow_commands(shadow_caster_index as nat) + point_shadow_caster_commands(
                shadow_caster_index,
                (face_index + 1) as nat,
            ));
            face_index += 1;
        }
        shadow_caster_index += 1;
    }
    CommandBuffer { kind: CommandBufferKind::PointShadow, commands }
}

/// Records the geometry pass.
pub fn record_geometry_pass(instruction: &RenderInstruction) -> (buffer: CommandBuffer)
    ensures
        buffer@.kind == CommandBufferKind::Geometry,
        buffer@.commands == geometry_commands(*instruction),
{
    let mut commands: Vec<Command> = Vec::new();
    push_begin(&mut commands, Pass::Geometry, PassData::Nothing);
    push_draw(
        &mut commands,
        Drawer::GeometryModel,
        DrawData::Models { show_wireframe: instruction.render_settings.show_wireframe },
    );
    push_draw(&mut commands, Drawer::GeometryIndicator, DrawData::Indicator);
    push_draw(&mut commands, Drawer::GeometryEntity, DrawData::Entities);
    push_optional_draw(&mut commands, instruction.has_map_water, Drawer::GeometryWater, DrawData::MapWaterVertexBuffer);
    commands.push(Command::EndRenderPass);
    proof {
        reveal(geometry_commands);
    }
    assert(commands@ =~= geometry_commands(*instruction));
    CommandBuffer { kind: CommandBufferKind::Geometry, commands }
}

fn push_lighting(commands: &mut Vec<Command>, settings: RenderSettings)
    ensures
        final(commands)@ == old(commands)@ + lighting_commands(settings),
{
    push_optional_draw(commands, settings.show_ambient_light, Drawer::ScreenAmbientLight, DrawData::Nothing);
    push_optional_draw(commands, settings.show_directional_light, Drawer::ScreenDirectionalLight, DrawData::Nothing);
    push_optional_draw(commands, settings.show_point_lights, Drawer::ScreenPointLight, DrawData::Nothing);
    push_draw(commands, Drawer::ScreenWaterLight, DrawData::Nothing);
    proof {
        reveal(lighting_commands);
    }
    assert(commands@ =~= old(commands)@ + lighting_commands(settings));
}

fn push_debug_shapes(commands: &mut Vec<Command>, debug_overlays: bool)
    ensures
        final(commands)@ == old(commands)@ + debug_shape_commands(debug_overlays),
{
    push_optional_draw(commands, debug_overlays, Drawer::ScreenAabb, DrawData::Nothing);
    push_optional_draw(commands, debug_overlays, Drawer::ScreenCircle, DrawData::Nothing);
    proof {
        reveal(debug_shape_commands);
    }
    assert(commands@ =~= old(commands)@ + debug_shape_commands(debug_overlays));
}

fn push_bottom_layer(commands: &mut Vec<Command>, debug_overlays: bool)
    ensures
        final(commands)@ == old(commands)@ + bottom_layer_commands(debug_overlays),
{
    push_draw(commands, Drawer::ScreenRectangle, DrawData::Rectangles(Layer::Bottom));
    push_draw(commands, Drawer::ScreenEffect, DrawData::Effects);
    push_optional_draw(commands, debug_overlays, Drawer::ScreenBuffer, DrawData::RenderSettings);
    proof {
        reveal(bottom_layer_commands);
    }
    assert(commands@ =~= old(commands)@ + bottom_layer_commands(debug_overlays));
}

fn push_middle_layer(commands: &mut Vec<Command>, debug_overlays: bool)
    ensures
        final(commands)@ == old(commands)@ + middle_layer_commands(debug_overlays),
{
    push_draw(commands, Drawer::ScreenRectangle, DrawData::Rectangles(Layer::Middle));
    push_optional_draw(commands, debug_overlays, Drawer::ScreenAabb, DrawData::Nothing);
    proof {
        reveal(middle_layer_commands);
    }
    assert(commands@ =~= old(commands)@ + middle_layer_commands(debug_overlays));
}

fn push_top_layer(commands: &mut Vec<Command>, show_interface: bool)
    ensures
        final(commands)@ == old(commands)@ + top_layer_commands(show_interface),
{
    push_optional_draw(commands, show_interface, Drawer::ScreenOverlay, DrawData::Nothing);
    push_draw(commands, Drawer::ScreenRectangle, DrawData::Rectangles(Layer::Top));
    commands.push(Command::EndRenderPass);
    proof {
        reveal(top_layer_commands);
    }
    assert(commands@ =~= old(commands)@ + top_layer_commands(show_interface));
}

/// Records the screen pass.
pub fn record_screen_pass(instruction: &RenderInstruction, debug_overlays: bool) -> (buffer: CommandBuffer)
    ensures
        buffer@.kind == CommandBufferKind::Screen,
        buffer@.commands == screen_commands(*instruction, debug_overlays),
{
    let mut commands: Vec<Command> = Vec::new();
    push_begin(&mut commands, Pass::Screen, PassData::Nothing);
    proof {
        reveal(screen_commands);
    }
    assert(commands@ =~= seq![begin(Pass::Screen, PassData::Nothing)]);
    push_lighting(&mut commands, instruction.render_settings);
    push_debug_shapes(&mut commands, debug_overlays);
    push_bottom_layer(&mut commands, debug_overlays);
    push_middle_layer(&mut commands, debug_overlays);
    push_top_layer(&mut commands, instruction.show_interface);
    CommandBuffer { kind: CommandBufferKind::Screen, commands }
}

} // verus!
