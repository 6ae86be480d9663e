//! How the stages of a frame share their work: which resources are
//! prepared and uploaded, and what each pass records.

use vstd::prelude::*;

use crate::graphics::frame::filters::{
    lemma_filter_bottom_layer, lemma_filter_debug_shapes, lemma_filter_keeps_none, lemma_filter_lighting,
    lemma_filter_middle_layer, lemma_filter_one, lemma_filter_optional, lemma_filter_screen, lemma_filter_top_layer,
};
use crate::graphics::frame::{
    begin, bottom_layer_commands, debug_shape_commands, directional_shadow_commands, draw, geometry_commands,
    interface_commands, lighting_commands, middle_layer_commands, optional, picker_commands,
    point_shadow_caster_commands, point_shadow_commands, point_shadow_face_commands, prepare_tasks,
    screen_commands, top_layer_commands, uploads,
};
use crate::graphics::instruction::RenderInstruction;
use crate::graphics::passes::{
    Command, DrawData, Drawer, Pass, PassData, PointShadowData, PrepareTask, Resource, NUMBER_OF_CUBE_FACES,
};
use crate::graphics::settings::ScreenSize;

verus! {

/// The resources that the tasks of the prepare stage prepare, in the order
/// of the tasks.
pub open spec fn prepared_resources(debug_overlays: bool) -> Seq<Resource> {
    prepare_tasks(debug_overlays).map_values(|task: PrepareTask| task.resource)
}

/// Where the task for an upload stands among the tasks of the prepare
/// stage.
pub open spec fn task_of_upload(debug_overlays: bool) -> Seq<int> {
    if debug_overlays {
        seq![0, 1, 16, 2, 3, 15, 4, 18, 5, 6, 17, 7, 8, 9, 10, 11, 12, 13, 14]
    } else {
        seq![0, 1, 12, 2, 3, 11, 4, 14, 5, 6, 13, 7, 8, 9, 10]
    }
}

/// The uploads are the prepared resources in another order: every resource
/// that a task prepares is uploaded once, and nothing else is uploaded. No
/// resource is prepared by two tasks, so no two task groups work on the same
/// resource.
pub proof fn lemma_uploads_are_the_prepared_resources(debug_overlays: bool)
    ensures
        prepared_resources(debug_overlays).no_duplicates(),
        uploads(debug_overlays).no_duplicates(),
        uploads(debug_overlays).len() == prepared_resources(debug_overlays).len(),
        task_of_upload(debug_overlays).len() == uploads(debug_overlays).len(),
        task_of_upload(debug_overlays).no_duplicates(),
        forall|index: int|
            0 <= index < uploads(debug_overlays).len() ==> {
                &&& 0 <= task_of_upload(debug_overlays)[index] < prepared_resources(debug_overlays).len()
                &&& prepared_resources(debug_overlays)[task_of_upload(debug_overlays)[index]] == #[trigger] uploads(
                    debug_overlays,
                )[index]
            },
{
    let tasks = prepare_tasks(debug_overlays);
    let resources = prepared_resources(debug_overlays);
    assert forall|i: int, j: int| 0 <= i < resources.len() && 0 <= j < resources.len() && i != j implies resources[i]
        != resources[j] by {
        assert(resources[i] == tasks[i].resource);
        assert(resources[j] == tasks[j].resource);
    }
}

/// Whether a command has no place in the command buffer of `pass`: an
/// upload, the begin of another pass, a draw by a drawer of another pass, or
/// a copy of the picker texel outside the picker pass.
pub open spec fn is_foreign(pass: Pass, command: Command) -> bool {
    match command {
        Command::Upload(_) => true,
        Command::BeginRenderPass { pass: begun, .. } => begun != pass,
        Command::Draw { drawer, .. } => drawer.pass() != pass,
        Command::EndRenderPass => false,
        Command::CopyPickerTexel { .. } => pass != Pass::Picker,
    }
}

/// `is_foreign` as a value.
pub open spec fn foreign_to(pass: Pass) -> spec_fn(Command) -> bool {
    |command: Command| is_foreign(pass, command)
}

proof fn lemma_point_shadow_pass_records_its_own(casters: nat)
    ensures
        point_shadow_commands(casters).filter(foreign_to(Pass::PointShadow)) == Seq::<Command>::empty(),
    decreases casters,
{
    if casters > 0 {
        lemma_point_shadow_pass_records_its_own((casters - 1) as nat);
        lemma_shadow_cube_records_its_own((casters - 1) as usize, NUMBER_OF_CUBE_FACES as nat);
        Seq::filter_distributes_over_add(
            point_shadow_commands((casters - 1) as nat),
            point_shadow_caster_commands((casters - 1) as usize, NUMBER_OF_CUBE_FACES as nat),
            foreign_to(Pass::PointShadow),
        );
        assert(Seq::<Command>::empty() + Seq::<Command>::empty() =~= Seq::<Command>::empty());
    }
}

proof fn lemma_shadow_cube_records_its_own(shadow_caster_index: usize, faces: nat)
    ensures
        point_shadow_caster_commands(shadow_caster_index, faces).filter(foreign_to(Pass::PointShadow)) == Seq::<
            Command,
        >::empty(),
    decreases faces,
{
    if faces > 0 {
        let face = point_shadow_face_commands(
            PointShadowData { shadow_caster_index, face_index: (faces - 1) as u32 },
        );
        lemma_shadow_cube_records_its_own(shadow_caster_index, (faces - 1) as nat);
        lemma_filter_keeps_none(face, foreign_to(Pass::PointShadow));
        Seq::filter_distributes_over_add(
            point_shadow_caster_commands(shadow_caster_index, (faces - 1) as nat),
            face,
            foreign_to(Pass::PointShadow),
        );
        assert(Seq::<Command>::empty() + Seq::<Command>::empty() =~= Seq::<Command>::empty());
    }
}

proof fn lemma_screen_pass_records_its_own(instruction: RenderInstruction, debug_overlays: bool)
    ensures
        screen_commands(instruction, debug_overlays).filter(foreign_to(Pass::Screen)) == Seq::<Command>::empty(),
{
    let foreign = foreign_to(Pass::Screen);
    lemma_filter_one(begin(Pass::Screen, PassData::Nothing), foreign);
    lemma_filter_lighting(instruction.render_settings, foreign);
    lemma_filter_debug_shapes(debug_overlays, foreign);
    lemma_filter_bottom_layer(debug_overlays, foreign);
    lemma_filter_middle_layer(debug_overlays, foreign);
    lemma_filter_top_layer(instruction.show_interface, foreign);
    lemma_filter_screen(instruction, debug_overlays, foreign);
    let empty = Seq::<Command>::empty();
    assert(lighting_commands(instruction.render_settings).filter(foreign) =~= empty);
    assert(debug_shape_commands(debug_overlays).filter(foreign) =~= empty);
    assert(bottom_layer_commands(debug_overlays).filter(foreign) =~= empty);
    assert(middle_layer_commands(debug_overlays).filter(foreign) =~= empty);
    assert(top_layer_commands(instruction.show_interface).filter(foreign) =~= empty);
    assert(empty + empty + empty + empty + empty + empty =~= empty);
}

proof fn lemma_picker_pass_records_its_own(instruction: RenderInstruction, extent: ScreenSize, debug_overlays: bool)
    ensures
        picker_commands(instruction, extent, debug_overlays).filter(foreign_to(Pass::Picker)) == Seq::<
            Command,
        >::empty(),
{
    reveal(picker_commands);
    lemma_filter_keeps_none(picker_commands(instruction, extent, debug_overlays), foreign_to(Pass::Picker));
}

proof fn lemma_interface_pass_records_its_own(instruction: RenderInstruction)
    ensures
        interface_commands(instruction).filter(foreign_to(Pass::Interface)) == Seq::<Command>::empty(),
{
    reveal(interface_commands);
    lemma_filter_keeps_none(interface_commands(instruction), foreign_to(Pass::Interface));
}

proof fn lemma_directional_shadow_pass_records_its_own()
    ensures
        directional_shadow_commands().filter(foreign_to(Pass::DirectionalShadow)) == Seq::<Command>::empty(),
{
    reveal(directional_shadow_commands);
    lemma_filter_keeps_none(directional_shadow_commands(), foreign_to(Pass::DirectionalShadow));
}

proof fn lemma_geometry_pass_records_its_own(instruction: RenderInstruction)
    ensures
        geometry_commands(instruction).filter(foreign_to(Pass::Geometry)) == Seq::<Command>::empty(),
{
    let foreign = foreign_to(Pass::Geometry);
    let draws = seq![
        begin(Pass::Geometry, PassData::Nothing),
        draw(Drawer::GeometryModel, DrawData::Models { show_wireframe: instruction.render_settings.show_wireframe }),
        draw(Drawer::GeometryIndicator, DrawData::Indicator),
        draw(Drawer::GeometryEntity, DrawData::Entities),
    ];
    let water = optional(instruction.has_map_water, draw(Drawer::GeometryWater, DrawData::MapWaterVertexBuffer));
    reveal(geometry_commands);
    lemma_filter_keeps_none(draws, foreign);
    lemma_filter_optional(
        instruction.has_map_water,
        draw(Drawer::GeometryWater, DrawData::MapWaterVertexBuffer),
        foreign,
    );
    lemma_filter_one(Command::EndRenderPass, foreign);
    Seq::filter_distributes_over_add(draws, water, foreign);
    Seq::filter_distributes_over_add(draws + water, seq![Command::EndRenderPass], foreign);
    assert(geometry_commands(instruction).filter(foreign) =~= Seq::<Command>::empty());
}

/// The command buffer of a pass holds nothing that belongs to another
/// pass: it begins no other pass, every drawer that draws into it was built
/// against the pass, and only the picker pass copies the picker texel.
pub proof fn lemma_passes_record_their_own_commands(
    instruction: RenderInstruction,
    extent: ScreenSize,
    debug_overlays: bool,
)
    ensures
        picker_commands(instruction, extent, debug_overlays).filter(foreign_to(Pass::Picker)) == Seq::<
            Command,
        >::empty(),
        interface_commands(instruction).filter(foreign_to(Pass::Interface)) == Seq::<Command>::empty(),
        directional_shadow_commands().filter(foreign_to(Pass::DirectionalShadow)) == Seq::<Command>::empty(),
        point_shadow_commands(instruction.point_light_shadow_casters as nat).filter(
            foreign_to(Pass::PointShadow),
        ) == Seq::<Command>::empty(),
        geometry_commands(instruction).filter(foreign_to(Pass::Geometry)) == Seq::<Command>::empty(),
        screen_commands(instruction, debug_overlays).filter(foreign_to(Pass::Screen)) == Seq::<Command>::empty(),
{
    lemma_picker_pass_records_its_own(instruction, extent, debug_overlays);
    lemma_interface_pass_records_its_own(instruction);
    lemma_directional_shadow_pass_records_its_own();
    lemma_point_shadow_pass_records_its_own(instruction.point_light_shadow_casters as nat);
    lemma_geometry_pass_records_its_own(instruction);
    lemma_screen_pass_records_its_own(instruction, debug_overlays);
}

} // verus!
