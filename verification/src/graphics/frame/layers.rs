//! The order in which the screen pass composes its layers.

use vstd::prelude::*;

use crate::graphics::frame::filters::{
    lemma_filter_bottom_layer, lemma_filter_debug_shapes, lemma_filter_lighting, lemma_filter_middle_layer,
    lemma_filter_one, lemma_filter_screen, lemma_filter_top_layer,
};
use crate::graphics::frame::{
    begin, bottom_layer_commands, debug_shape_commands, lighting_commands, middle_layer_commands, optional, overlay,
    rectangles, screen_commands, top_layer_commands,
};
use crate::graphics::instruction::{RenderInstruction, RenderSettings};
use crate::graphics::passes::{Command, Layer, Pass, PassData};

verus! {

/// Whether a command draws one of the layers that are composed over the lit
/// world: a layer of rectangles, or the interface.
pub open spec fn is_layer(command: Command) -> bool {
    command == rectangles(Layer::Bottom) || command == rectangles(Layer::Middle) || command == rectangles(
        Layer::Top,
    ) || command == overlay()
}

/// `is_layer` as a value.
pub open spec fn layers() -> spec_fn(Command) -> bool {
    |command: Command| is_layer(command)
}

proof fn lemma_layers_of_sections(settings: RenderSettings, debug_overlays: bool, show_interface: bool)
    ensures
        seq![begin(Pass::Screen, PassData::Nothing)].filter(layers()) == Seq::<Command>::empty(),
        lighting_commands(settings).filter(layers()) == Seq::<Command>::empty(),
        debug_shape_commands(debug_overlays).filter(layers()) == Seq::<Command>::empty(),
        bottom_layer_commands(debug_overlays).filter(layers()) == seq![rectangles(Layer::Bottom)],
        middle_layer_commands(debug_overlays).filter(layers()) == seq![rectangles(Layer::Middle)],
        top_layer_commands(show_interface).filter(layers()) == optional(show_interface, overlay()) + seq![
            rectangles(Layer::Top),
        ],
{
    lemma_filter_one(begin(Pass::Screen, PassData::Nothing), layers());
    lemma_filter_lighting(settings, layers());
    lemma_filter_debug_shapes(debug_overlays, layers());
    lemma_filter_bottom_layer(debug_overlays, layers());
    lemma_filter_middle_layer(debug_overlays, layers());
    lemma_filter_top_layer(show_interface, layers());
    assert(lighting_commands(settings).filter(layers()) =~= Seq::<Command>::empty());
    assert(debug_shape_commands(debug_overlays).filter(layers()) =~= Seq::<Command>::empty());
    assert(bottom_layer_commands(debug_overlays).filter(layers()) =~= seq![rectangles(Layer::Bottom)]);
    assert(middle_layer_commands(debug_overlays).filter(layers()) =~= seq![rectangles(Layer::Middle)]);
    assert(top_layer_commands(show_interface).filter(layers()) =~= optional(show_interface, overlay()) + seq![
        rectangles(Layer::Top),
    ]);
}

proof fn lemma_join_layers(first: Command, second: Command, between: Seq<Command>, last: Command)
    ensures
        Seq::<Command>::empty() + Seq::<Command>::empty() + Seq::<Command>::empty() + seq![first] + seq![second] + (
        between + seq![last]) == seq![first, second] + between + seq![last],
{
    let empty = Seq::<Command>::empty();
    assert(empty + empty + empty + seq![first] + seq![second] + (between + seq![last]) =~= seq![first, second]
        + between + seq![last]);
}

/// The screen pass composes its layers in one order, whatever the
/// instruction holds: the bottom rectangles, the middle rectangles, the
/// interface if it is shown, and the top rectangles. Each is drawn once.
pub proof fn lemma_rectangle_layers_in_order(instruction: RenderInstruction, debug_overlays: bool)
    ensures
        screen_commands(instruction, debug_overlays).filter(layers()) == seq![
            rectangles(Layer::Bottom),
            rectangles(Layer::Middle),
        ] + optional(instruction.show_interface, overlay()) + seq![rectangles(Layer::Top)],
{
    lemma_layers_of_sections(instruction.render_settings, debug_overlays, instruction.show_interface);
    lemma_filter_screen(instruction, debug_overlays, layers());
    lemma_join_layers(
        rectangles(Layer::Bottom),
        rectangles(Layer::Middle),
        optional(instruction.show_interface, overlay()),
        rectangles(Layer::Top),
    );
}

} // verus!
