//! The copy of the texel under the cursor.

use vstd::prelude::*;

use crate::graphics::frame::filters::{
    lemma_filter_bottom_layer, lemma_filter_debug_shapes, lemma_filter_keeps_none, lemma_filter_lighting,
    lemma_filter_middle_layer, lemma_filter_one, lemma_filter_optional, lemma_filter_screen, lemma_filter_top_layer,
    lemma_filter_two,
};
use crate::graphics::frame::{
    begin, bottom_layer_commands, debug_shape_commands, directional_shadow_commands, draw, geometry_commands,
    interface_commands, lighting_commands, middle_layer_commands, optional, picker_commands, picker_texel,
    point_shadow_caster_commands, point_shadow_commands, point_shadow_face_commands, screen_commands,
    top_layer_commands, upload_commands, uploads,
};
use crate::graphics::instruction::RenderInstruction;
use crate::graphics::passes::{Command, DrawData, Drawer, Pass, PassData, PointShadowData, NUMBER_OF_CUBE_FACES};
use crate::graphics::settings::{ScreenPosition, ScreenSize};

verus! {

/// Whether a command copies a texel into the picker value buffer.
pub open spec fn is_copy(command: Command) -> bool {
    command is CopyPickerTexel
}

/// `is_copy` as a value.
pub open spec fn copies() -> spec_fn(Command) -> bool {
    |command: Command| is_copy(command)
}

proof fn lemma_uploads_copy_nothing(debug_overlays: bool)
    ensures
        upload_commands(debug_overlays).filter(copies()) == Seq::<Command>::empty(),
{
    reveal(upload_commands);
    let commands = upload_commands(debug_overlays);
    assert forall|i: int| 0 <= i < commands.len() implies !copies()(#[trigger] commands[i]) by {
        assert(commands[i] == Command::Upload(uploads(debug_overlays)[i]));
    }
    lemma_filter_keeps_none(commands, copies());
}

proof fn lemma_interface_pass_copies_nothing(instruction: RenderInstruction)
    ensures
        interface_commands(instruction).filter(copies()) == Seq::<Command>::empty(),
{
    reveal(interface_commands);
    lemma_filter_keeps_none(interface_commands(instruction), copies());
}

proof fn lemma_directional_shadow_pass_copies_nothing()
    ensures
        directional_shadow_commands().filter(copies()) == Seq::<Command>::empty(),
{
    reveal(directional_shadow_commands);
    lemma_filter_keeps_none(directional_shadow_commands(), copies());
}

proof fn lemma_geometry_pass_copies_nothing(instruction: RenderInstruction)
    ensures
        geometry_commands(instruction).filter(copies()) == Seq::<Command>::empty(),
{
    let draws = seq![
        begin(Pass::Geometry, PassData::Nothing),
        draw(Drawer::GeometryModel, DrawData::Models { show_wireframe: instruction.render_settings.show_wireframe }),
        draw(Drawer::GeometryIndicator, DrawData::Indicator),
        draw(Drawer::GeometryEntity, DrawData::Entities),
    ];
    let water = optional(instruction.has_map_water, draw(Drawer::GeometryWater, DrawData::MapWaterVertexBuffer));
    reveal(geometry_commands);
    lemma_filter_keeps_none(draws, copies());
    lemma_filter_optional(
        instruction.has_map_water,
        draw(Drawer::GeometryWater, DrawData::MapWaterVertexBuffer),
        copies(),
    );
    lemma_filter_one(Command::EndRenderPass, copies());
    Seq::filter_distributes_over_add(draws, water, copies());
    Seq::filter_distributes_over_add(draws + water, seq![Command::EndRenderPass], copies());
    assert(geometry_commands(instruction).filter(copies()) =~= Seq::<Command>::empty());
}

proof fn lemma_point_shadow_pass_copies_nothing(casters: nat)
    ensures
        point_shadow_commands(casters).filter(copies()) == Seq::<Command>::empty(),
    decreases casters,
{
    if casters > 0 {
        lemma_point_shadow_pass_copies_nothing((casters - 1) as nat);
        lemma_shadow_cube_copies_nothing((casters - 1) as usize, NUMBER_OF_CUBE_FACES as nat);
        Seq::filter_distributes_over_add(
            point_shadow_commands((casters - 1) as nat),
            point_shadow_caster_commands((casters - 1) as usize, NUMBER_OF_CUBE_FACES as nat),
            copies(),
        );
        assert(Seq::<Command>::empty() + Seq::<Command>::empty() =~= Seq::<Command>::empty());
    }
}

proof fn lemma_shadow_cube_copies_nothing(shadow_caster_index: usize, faces: nat)
    ensures
        point_shadow_caster_commands(shadow_caster_index, faces).filter(copies()) == Seq::<Command>::empty(),
    decreases faces,
{
    if faces > 0 {
        let face = point_shadow_face_commands(
            PointShadowData { shadow_caster_index, face_index: (faces - 1) as u32 },
        );
        lemma_shadow_cube_copies_nothing(shadow_caster_index, (faces - 1) as nat);
        lemma_filter_keeps_none(face, copies());
        Seq::filter_distributes_over_add(
            point_shadow_caster_commands(shadow_caster_index, (faces - 1) as nat),
            face,
            copies(),
        );
        assert(Seq::<Command>::empty() + Seq::<Command>::empty() =~= Seq::<Command>::empty());
    }
}

proof fn lemma_screen_pass_copies_nothing(instruction: RenderInstruction, debug_overlays: bool)
    ensures
        screen_commands(instruction, debug_overlays).filter(copies()) == Seq::<Command>::empty(),
{
    lemma_filter_one(begin(Pass::Screen, PassData::Nothing), copies());
    lemma_filter_lighting(instruction.render_settings, copies());
    lemma_filter_debug_shapes(debug_overlays, copies());
    lemma_filter_bottom_layer(debug_overlays, copies());
    lemma_filter_middle_layer(debug_overlays, copies());
    lemma_filter_top_layer(instruction.show_interface, copies());
    lemma_filter_screen(instruction, debug_overlays, copies());
    let empty = Seq::<Command>::empty();
    assert(lighting_commands(instruction.render_settings).filter(copies()) =~= empty);
    assert(debug_shape_commands(debug_overlays).filter(copies()) =~= empty);
    assert(bottom_layer_commands(debug_overlays).filter(copies()) =~= empty);
    assert(middle_layer_commands(debug_overlays).filter(copies()) =~= empty);
    assert(top_layer_commands(instruction.show_interface).filter(copies()) =~= empty);
    assert(empty + empty + empty + empty + empty + empty =~= empty);
}

proof fn lemma_picker_pass_copies_texel(instruction: RenderInstruction, extent: ScreenSize, debug_overlays: bool)
    ensures
        picker_commands(instruction, extent, debug_overlays).filter(copies()) == seq![
            Command::CopyPickerTexel {
                x: picker_texel(extent, instruction.picker_position).0,
                y: picker_texel(extent, instruction.picker_position).1,
            },
        ],
{
    let draws = seq![
        begin(Pass::Picker, PassData::Nothing),
        draw(Drawer::PickerTile, DrawData::MapPickerTileVertexBuffer),
        draw(Drawer::PickerEntity, DrawData::Entities),
    ];
    let marker = optional(debug_overlays, draw(Drawer::PickerMarker, DrawData::Nothing));
    let copy = Command::CopyPickerTexel {
        x: picker_texel(extent, instruction.picker_position).0,
        y: picker_texel(extent, instruction.picker_position).1,
    };
    reveal(picker_commands);
    lemma_filter_keeps_none(draws, copies());
    lemma_filter_optional(debug_overlays, draw(Drawer::PickerMarker, DrawData::Nothing), copies());
    lemma_filter_two(Command::EndRenderPass, copy, copies());
    Seq::filter_distributes_over_add(draws, marker, copies());
    Seq::filter_distributes_over_add(draws + marker, seq![Command::EndRenderPass, copy], copies());
    assert(picker_commands(instruction, extent, debug_overlays).filter(copies()) =~= seq![copy]);
}

/// The texel that the picker pass copies lies inside the picker texture,
/// and it is the texel under the cursor if the cursor is inside.
pub proof fn lemma_picker_texel_is_inside(extent: ScreenSize, position: ScreenPosition)
    requires
        extent.width >= 1,
        extent.height >= 1,
    ensures
        picker_texel(extent, position).0 < extent.width,
        picker_texel(extent, position).1 < extent.height,
        position.left < extent.width ==> picker_texel(extent, position).0 == position.left,
        position.top < extent.height ==> picker_texel(extent, position).1 == position.top,
{
}

/// Of all commands of a frame, one copies a texel into the picker value
/// buffer: a command of the picker pass, which copies the texel under the
/// cursor.
pub proof fn lemma_frame_copies_texel_under_cursor(
    instruction: RenderInstruction,
    extent: ScreenSize,
    debug_overlays: bool,
)
    ensures
        upload_commands(debug_overlays).filter(copies()) == Seq::<Command>::empty(),
        interface_commands(instruction).filter(copies()) == Seq::<Command>::empty(),
        picker_commands(instruction, extent, debug_overlays).filter(copies()) == seq![
            Command::CopyPickerTexel {
                x: picker_texel(extent, instruction.picker_position).0,
                y: picker_texel(extent, instruction.picker_position).1,
            },
        ],
        directional_shadow_commands().filter(copies()) == Seq::<Command>::empty(),
        point_shadow_commands(instruction.point_light_shadow_casters as nat).filter(copies()) == Seq::<
            Command,
        >::empty(),
        geometry_commands(instruction).filter(copies()) == Seq::<Command>::empty(),
        screen_commands(instruction, debug_overlays).filter(copies()) == Seq::<Command>::empty(),
{
    lemma_uploads_copy_nothing(debug_overlays);
    lemma_interface_pass_copies_nothing(instruction);
    lemma_picker_pass_copies_texel(instruction, extent, debug_overlays);
    lemma_directional_shadow_pass_copies_nothing();
    lemma_point_shadow_pass_copies_nothing(instruction.point_light_shadow_casters as nat);
    lemma_geometry_pass_copies_nothing(instruction);
    lemma_screen_pass_copies_nothing(instruction, debug_overlays);
}

} // verus!
