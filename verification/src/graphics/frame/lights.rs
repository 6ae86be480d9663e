//! The lights of the screen pass, and what their switches do.

use vstd::prelude::*;

use crate::graphics::frame::filters::{
    lemma_filter_bottom_layer, lemma_filter_debug_shapes, lemma_filter_lighting, lemma_filter_middle_layer,
    lemma_filter_one, lemma_filter_screen, lemma_filter_top_layer, lemma_screen_sections,
};
use crate::graphics::frame::{
    begin, bottom_layer_commands, debug_shape_commands, draw, light, lighting_commands, middle_layer_commands,
    optional, rectangles, screen_commands, top_layer_commands,
};
use crate::graphics::instruction::{RenderInstruction, RenderSettings};
use crate::graphics::passes::{Command, DrawData, Drawer, Layer, Pass, PassData};

verus! {

/// The lights that the render settings can switch off.
pub open spec fn has_switch(drawer: Drawer) -> bool {
    drawer == Drawer::ScreenAmbientLight || drawer == Drawer::ScreenDirectionalLight || drawer
        == Drawer::ScreenPointLight
}

/// The instruction with the switch of one light set.
pub open spec fn with_light(instruction: RenderInstruction, drawer: Drawer, shown: bool) -> RenderInstruction {
    let settings = instruction.render_settings;
    RenderInstruction {
        render_settings: match drawer {
            Drawer::ScreenAmbientLight => RenderSettings { show_ambient_light: shown, ..settings },
            Drawer::ScreenDirectionalLight => RenderSettings { show_directional_light: shown, ..settings },
            Drawer::ScreenPointLight => RenderSettings { show_point_lights: shown, ..settings },
            _ => settings,
        },
        ..instruction
    }
}

/// The commands other than `command`.
pub open spec fn all_but(command: Command) -> spec_fn(Command) -> bool {
    |other: Command| other != command
}

/// The commands equal to `command`.
pub open spec fn only(command: Command) -> spec_fn(Command) -> bool {
    |other: Command| other == command
}

proof fn lemma_debug_shapes_without_light(debug_overlays: bool, drawer: Drawer)
    requires
        has_switch(drawer) || drawer == Drawer::ScreenWaterLight,
    ensures
        debug_shape_commands(debug_overlays).filter(all_but(light(drawer))) == debug_shape_commands(debug_overlays),
{
    lemma_filter_debug_shapes(debug_overlays, all_but(light(drawer)));
    reveal(debug_shape_commands);
}

proof fn lemma_bottom_layer_without_light(debug_overlays: bool, drawer: Drawer)
    requires
        has_switch(drawer) || drawer == Drawer::ScreenWaterLight,
    ensures
        bottom_layer_commands(debug_overlays).filter(all_but(light(drawer))) == bottom_layer_commands(
            debug_overlays,
        ),
{
    lemma_filter_bottom_layer(debug_overlays, all_but(light(drawer)));
    reveal(bottom_layer_commands);
    let rectangles = rectangles(Layer::Bottom);
    let effects = draw(Drawer::ScreenEffect, DrawData::Effects);
    assert(optional(true, rectangles) + optional(true, effects) =~= seq![rectangles, effects]);
}

proof fn lemma_middle_layer_without_light(debug_overlays: bool, drawer: Drawer)
    requires
        has_switch(drawer) || drawer == Drawer::ScreenWaterLight,
    ensures
        middle_layer_commands(debug_overlays).filter(all_but(light(drawer))) == middle_layer_commands(
            debug_overlays,
        ),
{
    lemma_filter_middle_layer(debug_overlays, all_but(light(drawer)));
    reveal(middle_layer_commands);
}

proof fn lemma_top_layer_without_light(show_interface: bool, drawer: Drawer)
    requires
        has_switch(drawer) || drawer == Drawer::ScreenWaterLight,
    ensures
        top_layer_commands(show_interface).filter(all_but(light(drawer))) == top_layer_commands(show_interface),
{
    lemma_filter_top_layer(show_interface, all_but(light(drawer)));
    reveal(top_layer_commands);
    let rectangles = rectangles(Layer::Top);
    assert(optional(true, rectangles) + optional(true, Command::EndRenderPass) =~= seq![
        rectangles,
        Command::EndRenderPass,
    ]);
}

proof fn lemma_sections_without_light(debug_overlays: bool, show_interface: bool, drawer: Drawer)
    requires
        has_switch(drawer) || drawer == Drawer::ScreenWaterLight,
    ensures
        seq![begin(Pass::Screen, PassData::Nothing)].filter(all_but(light(drawer))) == seq![
            begin(Pass::Screen, PassData::Nothing),
        ],
        debug_shape_commands(debug_overlays).filter(all_but(light(drawer))) == debug_shape_commands(debug_overlays),
        bottom_layer_commands(debug_overlays).filter(all_but(light(drawer))) == bottom_layer_commands(
            debug_overlays,
        ),
        middle_layer_commands(debug_overlays).filter(all_but(light(drawer))) == middle_layer_commands(
            debug_overlays,
        ),
        top_layer_commands(show_interface).filter(all_but(light(drawer))) == top_layer_commands(show_interface),
{
    lemma_filter_one(begin(Pass::Screen, PassData::Nothing), all_but(light(drawer)));
    lemma_debug_shapes_without_light(debug_overlays, drawer);
    lemma_bottom_layer_without_light(debug_overlays, drawer);
    lemma_middle_layer_without_light(debug_overlays, drawer);
    lemma_top_layer_without_light(show_interface, drawer);
}

proof fn lemma_sections_hold_no_light(debug_overlays: bool, show_interface: bool, drawer: Drawer)
    requires
        has_switch(drawer) || drawer == Drawer::ScreenWaterLight,
    ensures
        seq![begin(Pass::Screen, PassData::Nothing)].filter(only(light(drawer))) == Seq::<Command>::empty(),
        debug_shape_commands(debug_overlays).filter(only(light(drawer))) == Seq::<Command>::empty(),
        bottom_layer_commands(debug_overlays).filter(only(light(drawer))) == Seq::<Command>::empty(),
        middle_layer_commands(debug_overlays).filter(only(light(drawer))) == Seq::<Command>::empty(),
        top_layer_commands(show_interface).filter(only(light(drawer))) == Seq::<Command>::empty(),
{
    let alone = only(light(drawer));
    lemma_filter_one(begin(Pass::Screen, PassData::Nothing), alone);
    lemma_filter_debug_shapes(debug_overlays, alone);
    lemma_filter_bottom_layer(debug_overlays, alone);
    lemma_filter_middle_layer(debug_overlays, alone);
    lemma_filter_top_layer(show_interface, alone);
    assert(debug_shape_commands(debug_overlays).filter(alone) =~= Seq::<Command>::empty());
    assert(bottom_layer_commands(debug_overlays).filter(alone) =~= Seq::<Command>::empty());
    assert(middle_layer_commands(debug_overlays).filter(alone) =~= Seq::<Command>::empty());
    assert(top_layer_commands(show_interface).filter(alone) =~= Seq::<Command>::empty());
}

proof fn lemma_lighting_without(instruction: RenderInstruction, drawer: Drawer)
    requires
        has_switch(drawer),
    ensures
        lighting_commands(with_light(instruction, drawer, true).render_settings).filter(all_but(light(drawer)))
            == lighting_commands(with_light(instruction, drawer, false).render_settings),
        lighting_commands(with_light(instruction, drawer, true).render_settings).filter(only(light(drawer)))
            == seq![light(drawer)],
{
    let shown = with_light(instruction, drawer, true).render_settings;
    let hidden = with_light(instruction, drawer, false).render_settings;
    lemma_filter_lighting(shown, all_but(light(drawer)));
    lemma_filter_lighting(shown, only(light(drawer)));
    assert(lighting_commands(shown).filter(all_but(light(drawer))) =~= lighting_commands(hidden)) by {
        reveal(lighting_commands);
    }
    assert(lighting_commands(shown).filter(only(light(drawer))) =~= seq![light(drawer)]);
}

proof fn lemma_join_lighting(lighting: Seq<Command>)
    ensures
        Seq::<Command>::empty() + lighting + Seq::<Command>::empty() + Seq::<Command>::empty() + Seq::<
            Command,
        >::empty() + Seq::<Command>::empty() == lighting,
{
    let empty = Seq::<Command>::empty();
    assert(empty + lighting + empty + empty + empty + empty =~= lighting);
}

/// Switching a light off omits the draw of that light from the screen pass
/// and nothing else: what is left is drawn as before, in the same order.
/// While a light is shown it is drawn exactly once.
pub proof fn lemma_light_switch_omits_only_its_light(
    instruction: RenderInstruction,
    debug_overlays: bool,
    drawer: Drawer,
)
    requires
        has_switch(drawer),
    ensures
        screen_commands(with_light(instruction, drawer, false), debug_overlays) == screen_commands(
            with_light(instruction, drawer, true),
            debug_overlays,
        ).filter(all_but(light(drawer))),
        screen_commands(with_light(instruction, drawer, true), debug_overlays).filter(only(light(drawer))) == seq![
            light(drawer),
        ],
{
    let shown = with_light(instruction, drawer, true);
    lemma_screen_sections(with_light(instruction, drawer, false), debug_overlays);
    lemma_lighting_without(instruction, drawer);
    lemma_sections_without_light(debug_overlays, instruction.show_interface, drawer);
    lemma_sections_hold_no_light(debug_overlays, instruction.show_interface, drawer);
    lemma_filter_screen(shown, debug_overlays, all_but(light(drawer)));
    lemma_filter_screen(shown, debug_overlays, only(light(drawer)));
    lemma_join_lighting(seq![light(drawer)]);
}

/// The light on the water has no switch: every screen pass draws it exactly
/// once, whatever the render settings say.
pub proof fn lemma_water_light_is_always_drawn(instruction: RenderInstruction, debug_overlays: bool)
    ensures
        screen_commands(instruction, debug_overlays).filter(only(light(Drawer::ScreenWaterLight))) == seq![
            light(Drawer::ScreenWaterLight),
        ],
{
    let water = light(Drawer::ScreenWaterLight);
    lemma_filter_lighting(instruction.render_settings, only(water));
    assert(lighting_commands(instruction.render_settings).filter(only(water)) =~= seq![water]);
    lemma_sections_hold_no_light(debug_overlays, instruction.show_interface, Drawer::ScreenWaterLight);
    lemma_filter_screen(instruction, debug_overlays, only(water));
    lemma_join_lighting(seq![water]);
}

} // verus!
