//! What is left of the commands of a frame when some are picked out.

use vstd::prelude::*;

use crate::graphics::frame::{
    begin, bottom_layer_commands, debug_shape_commands, draw, light, lighting_commands, middle_layer_commands,
    optional, overlay, rectangles, screen_commands, top_layer_commands,
};
use crate::graphics::instruction::{RenderInstruction, RenderSettings};
use crate::graphics::passes::{Command, DrawData, Drawer, Layer, Pass, PassData};

verus! {

pub(crate) proof fn lemma_filter_one(command: Command, pred: spec_fn(Command) -> bool)
    ensures
        seq![command].filter(pred) == optional(pred(command), command),
{
    reveal_with_fuel(Seq::filter, 2);
    assert(seq![command].drop_last() =~= Seq::<Command>::empty());
    assert(Seq::<Command>::empty().push(command) =~= seq![command]);
}

pub(crate) proof fn lemma_filter_optional(present: bool, command: Command, pred: spec_fn(Command) -> bool)
    ensures
        optional(present, command).filter(pred) == optional(present && pred(command), command),
{
    lemma_filter_one(command, pred);
}

pub(crate) proof fn lemma_filter_two(first: Command, second: Command, pred: spec_fn(Command) -> bool)
    ensures
        seq![first, second].filter(pred) == optional(pred(first), first) + optional(pred(second), second),
{
    assert(seq![first, second] =~= seq![first] + seq![second]);
    Seq::filter_distributes_over_add(seq![first], seq![second], pred);
    lemma_filter_one(first, pred);
    lemma_filter_one(second, pred);
}

// What is left of each section of the screen pass when it is filtered.

pub(crate) proof fn lemma_filter_lighting(settings: RenderSettings, pred: spec_fn(Command) -> bool)
    ensures
        lighting_commands(settings).filter(pred) == optional(
            settings.show_ambient_light && pred(light(Drawer::ScreenAmbientLight)),
            light(Drawer::ScreenAmbientLight),
        ) + optional(
            settings.show_directional_light && pred(light(Drawer::ScreenDirectionalLight)),
            light(Drawer::ScreenDirectionalLight),
        ) + optional(
            settings.show_point_lights && pred(light(Drawer::ScreenPointLight)),
            light(Drawer::ScreenPointLight),
        ) + optional(pred(light(Drawer::ScreenWaterLight)), light(Drawer::ScreenWaterLight)),
{
    reveal(lighting_commands);
    let ambient = optional(settings.show_ambient_light, light(Drawer::ScreenAmbientLight));
    let directional = optional(settings.show_directional_light, light(Drawer::ScreenDirectionalLight));
    let point = optional(settings.show_point_lights, light(Drawer::ScreenPointLight));
    let water = seq![light(Drawer::ScreenWaterLight)];
    lemma_filter_optional(settings.show_ambient_light, light(Drawer::ScreenAmbientLight), pred);
    lemma_filter_optional(settings.show_directional_light, light(Drawer::ScreenDirectionalLight), pred);
    lemma_filter_optional(settings.show_point_lights, light(Drawer::ScreenPointLight), pred);
    lemma_filter_one(light(Drawer::ScreenWaterLight), pred);
    Seq::filter_distributes_over_add(ambient, directional, pred);
    Seq::filter_distributes_over_add(ambient + directional, point, pred);
    Seq::filter_distributes_over_add(ambient + directional + point, water, pred);
}

pub(crate) proof fn lemma_filter_debug_shapes(debug_overlays: bool, pred: spec_fn(Command) -> bool)
    ensures
        debug_shape_commands(debug_overlays).filter(pred) == optional(
            debug_overlays && pred(draw(Drawer::ScreenAabb, DrawData::Nothing)),
            draw(Drawer::ScreenAabb, DrawData::Nothing),
        ) + optional(
            debug_overlays && pred(draw(Drawer::ScreenCircle, DrawData::Nothing)),
            draw(Drawer::ScreenCircle, DrawData::Nothing),
        ),
{
    reveal(debug_shape_commands);
    lemma_filter_optional(debug_overlays, draw(Drawer::ScreenAabb, DrawData::Nothing), pred);
    lemma_filter_optional(debug_overlays, draw(Drawer::ScreenCircle, DrawData::Nothing), pred);
    Seq::filter_distributes_over_add(
        optional(debug_overlays, draw(Drawer::ScreenAabb, DrawData::Nothing)),
        optional(debug_overlays, draw(Drawer::ScreenCircle, DrawData::Nothing)),
        pred,
    );
}

pub(crate) proof fn lemma_filter_bottom_layer(debug_overlays: bool, pred: spec_fn(Command) -> bool)
    ensures
        bottom_layer_commands(debug_overlays).filter(pred) == optional(
            pred(rectangles(Layer::Bottom)),
            rectangles(Layer::Bottom),
        ) + optional(
            pred(draw(Drawer::ScreenEffect, DrawData::Effects)),
            draw(Drawer::ScreenEffect, DrawData::Effects),
        ) + optional(
            debug_overlays && pred(draw(Drawer::ScreenBuffer, DrawData::RenderSettings)),
            draw(Drawer::ScreenBuffer, DrawData::RenderSettings),
        ),
{
    reveal(bottom_layer_commands);
    lemma_filter_two(rectangles(Layer::Bottom), draw(Drawer::ScreenEffect, DrawData::Effects), pred);
    lemma_filter_optional(debug_overlays, draw(Drawer::ScreenBuffer, DrawData::RenderSettings), pred);
    Seq::filter_distributes_over_add(
        seq![rectangles(Layer::Bottom), draw(Drawer::ScreenEffect, DrawData::Effects)],
        optional(debug_overlays, draw(Drawer::ScreenBuffer, DrawData::RenderSettings)),
        pred,
    );
}

pub(crate) proof fn lemma_filter_middle_layer(debug_overlays: bool, pred: spec_fn(Command) -> bool)
    ensures
        middle_layer_commands(debug_overlays).filter(pred) == optional(
            pred(rectangles(Layer::Middle)),
            rectangles(Layer::Middle),
        ) + optional(
            debug_overlays && pred(draw(Drawer::ScreenAabb, DrawData::Nothing)),
            draw(Drawer::ScreenAabb, DrawData::Nothing),
        ),
{
    reveal(middle_layer_commands);
    lemma_filter_one(rectangles(Layer::Middle), pred);
    lemma_filter_optional(debug_overlays, draw(Drawer::ScreenAabb, DrawData::Nothing), pred);
    Seq::filter_distributes_over_add(
        seq![rectangles(Layer::Middle)],
        optional(debug_overlays, draw(Drawer::ScreenAabb, DrawData::Nothing)),
        pred,
    );
}

pub(crate) proof fn lemma_filter_top_layer(show_interface: bool, pred: spec_fn(Command) -> bool)
    ensures
        top_layer_commands(show_interface).filter(pred) == optional(show_interface && pred(overlay()), overlay())
            + (optional(pred(rectangles(Layer::Top)), rectangles(Layer::Top)) + optional(
            pred(Command::EndRenderPass),
            Command::EndRenderPass,
        )),
{
    reveal(top_layer_commands);
    lemma_filter_optional(show_interface, overlay(), pred);
    lemma_filter_two(rectangles(Layer::Top), Command::EndRenderPass, pred);
    Seq::filter_distributes_over_add(
        optional(show_interface, overlay()),
        seq![rectangles(Layer::Top), Command::EndRenderPass],
        pred,
    );
}

pub(crate) proof fn lemma_filter_sections(
    opening: Seq<Command>,
    lighting: Seq<Command>,
    shapes: Seq<Command>,
    bottom: Seq<Command>,
    middle: Seq<Command>,
    top: Seq<Command>,
    pred: spec_fn(Command) -> bool,
)
    ensures
        (opening + lighting + shapes + bottom + middle + top).filter(pred) == opening.filter(pred) + lighting.filter(
            pred,
        ) + shapes.filter(pred) + bottom.filter(pred) + middle.filter(pred) + top.filter(pred),
{
    Seq::filter_distributes_over_add(opening, lighting, pred);
    Seq::filter_distributes_over_add(opening + lighting, shapes, pred);
    Seq::filter_distributes_over_add(opening + lighting + shapes, bottom, pred);
    Seq::filter_distributes_over_add(opening + lighting + shapes + bottom, middle, pred);
    Seq::filter_distributes_over_add(opening + lighting + shapes + bottom + middle, top, pred);
}

pub(crate) proof fn lemma_screen_sections(instruction: RenderInstruction, debug_overlays: bool)
    ensures
        screen_commands(instruction, debug_overlays) == seq![begin(Pass::Screen, PassData::Nothing)]
            + lighting_commands(instruction.render_settings) + debug_shape_commands(debug_overlays)
            + bottom_layer_commands(debug_overlays) + middle_layer_commands(debug_overlays) + top_layer_commands(
            instruction.show_interface,
        ),
{
    reveal(screen_commands);
}

/// The sections of the screen pass, filtered one by one.
pub(crate) proof fn lemma_filter_screen(instruction: RenderInstruction, debug_overlays: bool, pred: spec_fn(Command) -> bool)
    ensures
        screen_commands(instruction, debug_overlays).filter(pred) == seq![
            begin(Pass::Screen, PassData::Nothing),
        ].filter(pred) + lighting_commands(instruction.render_settings).filter(pred) + debug_shape_commands(
            debug_overlays,
        ).filter(pred) + bottom_layer_commands(debug_overlays).filter(pred) + middle_layer_commands(
            debug_overlays,
        ).filter(pred) + top_layer_commands(instruction.show_interface).filter(pred),
{
    reveal(screen_commands);
    lemma_filter_sections(
        seq![begin(Pass::Screen, PassData::Nothing)],
        lighting_commands(instruction.render_settings),
        debug_shape_commands(debug_overlays),
        bottom_layer_commands(debug_overlays),
        middle_layer_commands(debug_overlays),
        top_layer_commands(instruction.show_interface),
        pred,
    );
}

pub(crate) proof fn lemma_filter_keeps_none(commands: Seq<Command>, pred: spec_fn(Command) -> bool)
    requires
        forall|i: int| 0 <= i < commands.len() ==> !pred(#[trigger] commands[i]),
    ensures
        commands.filter(pred) == Seq::<Command>::empty(),
    decreases commands.len(),
{
    reveal_with_fuel(Seq::filter, 2);
    if commands.len() > 0 {
        let shorter = commands.drop_last();
        assert forall|i: int| 0 <= i < shorter.len() implies !pred(#[trigger] shorter[i]) by {
            assert(shorter[i] == commands[i]);
        }
        lemma_filter_keeps_none(shorter, pred);
        assert(!pred(commands[commands.len() - 1]));
        assert(commands.last() == commands[commands.len() - 1]);
        assert(commands.filter(pred) == shorter.filter(pred));
    } else {
        assert(commands.filter(pred) == commands);
        assert(commands =~= Seq::<Command>::empty());
    }
}

} // verus!
