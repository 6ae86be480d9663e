use korangar::graphics::frame::{
    plan_draw_tasks, plan_prepare_tasks, record_directional_shadow_pass, record_geometry_pass, record_interface_pass,
    record_picker_pass, record_point_shadow_pass, record_screen_pass, record_uploads,
};
use korangar::graphics::instruction::{RenderInstruction, RenderSettings};
use korangar::graphics::passes::{
    Command, CommandBufferKind, DrawData, DrawTask, Drawer, Layer, Pass, PassData, PointShadowData, Resource,
    TaskGroup, NUMBER_OF_CUBE_FACES,
};
use korangar::graphics::settings::{ScreenPosition, ScreenSize};

fn frame_instruction() -> RenderInstruction {
    RenderInstruction {
        clear_interface: false,
        show_interface: false,
        picker_position: ScreenPosition { left: 0, top: 0 },
        render_settings: RenderSettings {
            show_ambient_light: true,
            show_directional_light: true,
            show_point_lights: true,
            show_wireframe: false,
        },
        point_light_shadow_casters: 0,
        has_map_water: false,
    }
}

fn draw(drawer: Drawer, data: DrawData) -> Command {
    Command::Draw { drawer, data }
}

fn begin(pass: Pass, pass_data: PassData) -> Command {
    Command::BeginRenderPass { pass, pass_data }
}

fn rectangles(layer: Layer) -> Command {
    draw(Drawer::ScreenRectangle, DrawData::Rectangles(layer))
}

fn all_instructions() -> Vec<(RenderInstruction, bool)> {
    let mut instructions = Vec::new();
    for bits in 0..128u32 {
        let flag = |bit: u32| bits & (1 << bit) != 0;
        let instruction = RenderInstruction {
            clear_interface: flag(4),
            show_interface: flag(0),
            picker_position: ScreenPosition { left: 3, top: 4 },
            render_settings: RenderSettings {
                show_ambient_light: flag(1),
                show_directional_light: flag(2),
                show_point_lights: flag(3),
                show_wireframe: flag(4),
            },
            point_light_shadow_casters: 1,
            has_map_water: flag(5),
        };
        instructions.push((instruction, flag(6)));
    }
    instructions
}

#[test]
fn screen_pass_of_a_plain_frame() {
    let buffer = record_screen_pass(&frame_instruction(), false);
    assert_eq!(buffer.kind, CommandBufferKind::Screen);
    assert_eq!(
        buffer.commands,
        vec![
            begin(Pass::Screen, PassData::Nothing),
            draw(Drawer::ScreenAmbientLight, DrawData::Nothing),
            draw(Drawer::ScreenDirectionalLight, DrawData::Nothing),
            draw(Drawer::ScreenPointLight, DrawData::Nothing),
            draw(Drawer::ScreenWaterLight, DrawData::Nothing),
            rectangles(Layer::Bottom),
            draw(Drawer::ScreenEffect, DrawData::Effects),
            rectangles(Layer::Middle),
            rectangles(Layer::Top),
            Command::EndRenderPass,
        ]
    );
}

#[test]
fn screen_pass_with_interface_and_debug_overlays() {
    let mut instruction = frame_instruction();
    instruction.show_interface = true;
    let buffer = record_screen_pass(&instruction, true);
    assert_eq!(
        buffer.commands,
        vec![
            begin(Pass::Screen, PassData::Nothing),
            draw(Drawer::ScreenAmbientLight, DrawData::Nothing),
            draw(Drawer::ScreenDirectionalLight, DrawData::Nothing),
            draw(Drawer::ScreenPointLight, DrawData::Nothing),
            draw(Drawer::ScreenWaterLight, DrawData::Nothing),
            draw(Drawer::ScreenAabb, DrawData::Nothing),
            draw(Drawer::ScreenCircle, DrawData::Nothing),
            rectangles(Layer::Bottom),
            draw(Drawer::ScreenEffect, DrawData::Effects),
            draw(Drawer::ScreenBuffer, DrawData::RenderSettings),
            rectangles(Layer::Middle),
            draw(Drawer::ScreenAabb, DrawData::Nothing),
            draw(Drawer::ScreenOverlay, DrawData::Nothing),
            rectangles(Layer::Top),
            Command::EndRenderPass,
        ]
    );
}

#[test]
fn rectangle_layers_are_composed_bottom_middle_overlay_top() {
    for (instruction, debug_overlays) in all_instructions() {
        let buffer = record_screen_pass(&instruction, debug_overlays);
        let layers: Vec<Command> = buffer
            .commands
            .iter()
            .copied()
            .filter(|command| {
                matches!(
                    command,
                    Command::Draw { drawer: Drawer::ScreenRectangle, .. }
                        | Command::Draw { drawer: Drawer::ScreenOverlay, .. }
                )
            })
            .collect();
        let mut expected = vec![rectangles(Layer::Bottom), rectangles(Layer::Middle)];
        if instruction.show_interface {
            expected.push(draw(Drawer::ScreenOverlay, DrawData::Nothing));
        }
        expected.push(rectangles(Layer::Top));
        assert_eq!(layers, expected);
    }
}

#[test]
fn hiding_point_lights_omits_only_their_draw() {
    for (instruction, debug_overlays) in all_instructions() {
        let mut shown = instruction;
        shown.render_settings.show_point_lights = true;
        let mut hidden = instruction;
        hidden.render_settings.show_point_lights = false;
        let point_lights = draw(Drawer::ScreenPointLight, DrawData::Nothing);
        let with_lights = record_screen_pass(&shown, debug_overlays).commands;
        let without_lights = record_screen_pass(&hidden, debug_overlays).commands;
        let rest: Vec<Command> = with_lights.iter().copied().filter(|command| *command != point_lights).collect();
        assert_eq!(without_lights, rest);
        assert_eq!(with_lights.len(), without_lights.len() + 1);
        assert!(without_lights.contains(&draw(Drawer::ScreenWaterLight, DrawData::Nothing)));
        assert!(with_lights.contains(&draw(Drawer::ScreenWaterLight, DrawData::Nothing)));
    }
}

#[test]
fn hiding_ambient_and_directional_light_omits_only_their_draws() {
    for (instruction, debug_overlays) in all_instructions() {
        for (drawer, hide) in [
            (Drawer::ScreenAmbientLight, 0),
            (Drawer::ScreenDirectionalLight, 1),
        ] {
            let mut shown = instruction;
            let mut hidden = instruction;
            if hide == 0 {
                shown.render_settings.show_ambient_light = true;
                hidden.render_settings.show_ambient_light = false;
            } else {
                shown.render_settings.show_directional_light = true;
                hidden.render_settings.show_directional_light = false;
            }
            let light = draw(drawer, DrawData::Nothing);
            let with_light = record_screen_pass(&shown, debug_overlays).commands;
            let without_light = record_screen_pass(&hidden, debug_overlays).commands;
            let rest: Vec<Command> = with_light.iter().copied().filter(|command| *command != light).collect();
            assert_eq!(without_light, rest);
            assert_eq!(with_light.iter().filter(|command| **command == light).count(), 1);
        }
    }
}

#[test]
fn water_light_is_drawn_once_in_every_screen_pass() {
    for (instruction, debug_overlays) in all_instructions() {
        let commands = record_screen_pass(&instruction, debug_overlays).commands;
        let water = draw(Drawer::ScreenWaterLight, DrawData::Nothing);
        assert_eq!(commands.iter().filter(|command| **command == water).count(), 1);
    }
}

#[test]
fn light_switches_change_no_other_pass() {
    let mut dark = frame_instruction();
    dark.render_settings.show_ambient_light = false;
    dark.render_settings.show_directional_light = false;
    dark.render_settings.show_point_lights = false;
    let lit = frame_instruction();
    let extent = ScreenSize { width: 8, height: 8 };
    assert_eq!(record_picker_pass(&dark, extent, false).commands, record_picker_pass(&lit, extent, false).commands);
    assert_eq!(record_interface_pass(&dark).commands, record_interface_pass(&lit).commands);
    assert_eq!(record_point_shadow_pass(&dark).commands, record_point_shadow_pass(&lit).commands);
    assert_eq!(record_geometry_pass(&dark).commands, record_geometry_pass(&lit).commands);
    assert_eq!(
        record_screen_pass(&dark, false).commands,
        vec![
            begin(Pass::Screen, PassData::Nothing),
            draw(Drawer::ScreenWaterLight, DrawData::Nothing),
            rectangles(Layer::Bottom),
            draw(Drawer::ScreenEffect, DrawData::Effects),
            rectangles(Layer::Middle),
            rectangles(Layer::Top),
            Command::EndRenderPass,
        ]
    );
}

#[test]
fn every_draw_belongs_to_the_pass_it_is_recorded_in() {
    for (instruction, debug_overlays) in all_instructions() {
        let buffers = [
            (Pass::Picker, record_picker_pass(&instruction, ScreenSize { width: 8, height: 8 }, debug_overlays)),
            (Pass::Interface, record_interface_pass(&instruction)),
            (Pass::DirectionalShadow, record_directional_shadow_pass()),
            (Pass::PointShadow, record_point_shadow_pass(&instruction)),
            (Pass::Geometry, record_geometry_pass(&instruction)),
            (Pass::Screen, record_screen_pass(&instruction, debug_overlays)),
        ];
        for (pass, buffer) in buffers {
            let mut open = false;
            for command in &buffer.commands {
                match command {
                    Command::BeginRenderPass { pass: begun, .. } => {
                        assert!(!open);
                        assert_eq!(*begun, pass);
                        open = true;
                    }
                    Command::Draw { drawer, .. } => {
                        assert!(open);
                        assert_eq!(drawer.pass(), pass);
                        assert!(debug_overlays || !drawer.is_debug_aid());
                    }
                    Command::EndRenderPass => {
                        assert!(open);
                        open = false;
                    }
                    Command::CopyPickerTexel { .. } => {
                        assert!(!open);
                        assert_eq!(pass, Pass::Picker);
                    }
                    Command::Upload(_) => panic!("a pass uploads nothing"),
                }
            }
            assert!(!open);
        }
    }
}

#[test]
fn interface_pass_clears_on_demand() {
    let mut instruction = frame_instruction();
    assert_eq!(
        record_interface_pass(&instruction).commands,
        vec![
            begin(Pass::Interface, PassData::Clear(false)),
            draw(Drawer::InterfaceRectangle, DrawData::Interface),
            Command::EndRenderPass,
        ]
    );
    instruction.clear_interface = true;
    assert_eq!(record_interface_pass(&instruction).commands[0], begin(Pass::Interface, PassData::Clear(true)));
    assert_eq!(record_interface_pass(&instruction).kind, CommandBufferKind::Interface);
}

#[test]
fn directional_shadow_pass_draws_models_indicator_entities() {
    let buffer = record_directional_shadow_pass();
    assert_eq!(buffer.kind, CommandBufferKind::DirectionalShadow);
    assert_eq!(
        buffer.commands,
        vec![
            begin(Pass::DirectionalShadow, PassData::Nothing),
            draw(Drawer::DirectionalShadowModel, DrawData::DirectionalShadowModels),
            draw(Drawer::DirectionalShadowIndicator, DrawData::Indicator),
            draw(Drawer::DirectionalShadowEntity, DrawData::DirectionalShadowEntities),
            Command::EndRenderPass,
        ]
    );
}

#[test]
fn geometry_pass_draws_water_only_on_a_map_with_water() {
    let mut instruction = frame_instruction();
    instruction.render_settings.show_wireframe = true;
    assert_eq!(
        record_geometry_pass(&instruction).commands,
        vec![
            begin(Pass::Geometry, PassData::Nothing),
            draw(Drawer::GeometryModel, DrawData::Models { show_wireframe: true }),
            draw(Drawer::GeometryIndicator, DrawData::Indicator),
            draw(Drawer::GeometryEntity, DrawData::Entities),
            Command::EndRenderPass,
        ]
    );
    instruction.has_map_water = true;
    instruction.render_settings.show_wireframe = false;
    assert_eq!(
        record_geometry_pass(&instruction).commands,
        vec![
            begin(Pass::Geometry, PassData::Nothing),
            draw(Drawer::GeometryModel, DrawData::Models { show_wireframe: false }),
            draw(Drawer::GeometryIndicator, DrawData::Indicator),
            draw(Drawer::GeometryEntity, DrawData::Entities),
            draw(Drawer::GeometryWater, DrawData::MapWaterVertexBuffer),
            Command::EndRenderPass,
        ]
    );
}

#[test]
fn point_shadow_pass_without_casters_is_empty() {
    let buffer = record_point_shadow_pass(&frame_instruction());
    assert_eq!(buffer.kind, CommandBufferKind::PointShadow);
    assert!(buffer.commands.is_empty());
}

#[test]
fn point_shadow_pass_has_six_sub_passes_per_caster() {
    assert_eq!(NUMBER_OF_CUBE_FACES, 6);
    for casters in 0..=6usize {
        let mut instruction = frame_instruction();
        instruction.point_light_shadow_casters = casters;
        let commands = record_point_shadow_pass(&instruction).commands;
        assert_eq!(commands.len(), 5 * 6 * casters);
        let begins = commands.iter().filter(|command| matches!(command, Command::BeginRenderPass { .. })).count();
        assert_eq!(begins, 6 * casters);
        for shadow_caster_index in 0..casters {
            for face_index in 0..6u32 {
                let data = PointShadowData { shadow_caster_index, face_index };
                let start = 5 * (6 * shadow_caster_index + face_index as usize);
                assert_eq!(
                    &commands[start..start + 5],
                    &[
                        begin(Pass::PointShadow, PassData::PointShadow(data)),
                        draw(Drawer::PointShadowModel, DrawData::PointShadowModels(data)),
                        draw(Drawer::PointShadowEntity, DrawData::PointShadowEntities(data)),
                        draw(Drawer::PointShadowIndicator, DrawData::Indicator),
                        Command::EndRenderPass,
                    ]
                );
            }
        }
    }
}

#[test]
fn picker_pass_with_debug_overlays_draws_the_markers() {
    let mut instruction = frame_instruction();
    instruction.picker_position = ScreenPosition { left: 5, top: 900 };
    let buffer = record_picker_pass(&instruction, ScreenSize { width: 640, height: 480 }, true);
    assert_eq!(buffer.kind, CommandBufferKind::Picker);
    assert_eq!(
        buffer.commands,
        vec![
            begin(Pass::Picker, PassData::Nothing),
            draw(Drawer::PickerTile, DrawData::MapPickerTileVertexBuffer),
            draw(Drawer::PickerEntity, DrawData::Entities),
            draw(Drawer::PickerMarker, DrawData::Nothing),
            Command::EndRenderPass,
            Command::CopyPickerTexel { x: 5, y: 479 },
        ]
    );
}

#[test]
fn picker_texel_of_a_texture_of_one_texel() {
    let mut instruction = frame_instruction();
    instruction.picker_position = ScreenPosition { left: 17, top: 0 };
    let buffer = record_picker_pass(&instruction, ScreenSize { width: 1, height: 1 }, false);
    assert_eq!(buffer.commands.last(), Some(&Command::CopyPickerTexel { x: 0, y: 0 }));
}

#[test]
fn uploads_and_tasks_do_not_depend_on_the_frame() {
    assert_eq!(record_uploads(false).commands.len(), 15);
    assert_eq!(record_uploads(true).commands.len(), 19);
    assert_eq!(plan_prepare_tasks(false).len(), 15);
    assert_eq!(plan_prepare_tasks(true).len(), 19);
    assert_eq!(record_uploads(false).commands[5], Command::Upload(Resource::GlobalContext));
    assert_eq!(record_uploads(true).kind, CommandBufferKind::Prepare);
}

#[test]
fn no_two_task_groups_prepare_the_same_resource() {
    let tasks = plan_prepare_tasks(true);
    for (index, task) in tasks.iter().enumerate() {
        for other in &tasks[index + 1..] {
            assert_ne!(task.resource, other.resource);
        }
    }
}

#[test]
fn drawers_know_their_pass() {
    assert_eq!(Drawer::InterfaceRectangle.pass(), Pass::Interface);
    assert_eq!(Drawer::PickerEntity.pass(), Pass::Picker);
    assert_eq!(Drawer::PickerTile.pass(), Pass::Picker);
    assert_eq!(Drawer::PickerMarker.pass(), Pass::Picker);
    assert_eq!(Drawer::DirectionalShadowModel.pass(), Pass::DirectionalShadow);
    assert_eq!(Drawer::PointShadowIndicator.pass(), Pass::PointShadow);
    assert_eq!(Drawer::GeometryWater.pass(), Pass::Geometry);
    assert_eq!(Drawer::ScreenOverlay.pass(), Pass::Screen);
    assert_eq!(Drawer::ScreenBuffer.pass(), Pass::Screen);
    assert!(Drawer::ScreenBuffer.is_debug_aid());
    assert!(Drawer::ScreenAabb.is_debug_aid());
    assert!(Drawer::ScreenCircle.is_debug_aid());
    assert!(Drawer::PickerMarker.is_debug_aid());
    assert!(!Drawer::ScreenOverlay.is_debug_aid());
    assert!(!Drawer::ScreenWaterLight.is_debug_aid());
}

#[test]
fn screen_pass_is_recorded_by_the_caller() {
    assert_eq!(
        plan_draw_tasks(),
        vec![
            DrawTask { group: TaskGroup::Worker(0), pass: Pass::Picker },
            DrawTask { group: TaskGroup::Worker(1), pass: Pass::Interface },
            DrawTask { group: TaskGroup::Worker(2), pass: Pass::DirectionalShadow },
            DrawTask { group: TaskGroup::Worker(3), pass: Pass::PointShadow },
            DrawTask { group: TaskGroup::Worker(4), pass: Pass::Geometry },
            DrawTask { group: TaskGroup::Caller, pass: Pass::Screen },
        ]
    );
}
