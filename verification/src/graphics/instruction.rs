//! What the engine reads of the instruction for one frame.

use vstd::prelude::*;

use crate::graphics::passes::NUMBER_OF_POINT_LIGHTS_WITH_SHADOWS;
use crate::graphics::settings::ScreenPosition;

verus! {

/// Switches for the parts of the picture.
#[derive(Clone, Copy, Debug, PartialEq, Eq, Structural)]
pub struct RenderSettings {
    pub show_ambient_light: bool,
    pub show_directional_light: bool,
    pub show_point_lights: bool,
    pub show_wireframe: bool,
}

/// The snapshot of the world and the interface that one frame renders, as
/// far as it decides what the engine records. The draw items themselves stay
/// with the caller, who hands them to the drawers.
#[derive(Clone, Copy, Debug, PartialEq, Eq, Structural)]
pub struct RenderInstruction {
    /// Whether the interface target is cleared before it is drawn.
    pub clear_interface: bool,
    /// Whether the interface is laid over the world.
    pub show_interface: bool,
    /// The pixel under the cursor.
    pub picker_position: ScreenPosition,
    pub render_settings: RenderSettings,
    /// The number of point lights that cast a shadow.
    pub point_light_shadow_casters: usize,
    /// Whether the map has water.
    pub has_map_water: bool,
}

impl RenderInstruction {
    /// Whether the engine accepts the instruction: it holds no more point
    /// lights with shadows than there are shadow cubes.
    pub open spec fn spec_is_renderable(&self) -> bool {
        self.point_light_shadow_casters <= NUMBER_OF_POINT_LIGHTS_WITH_SHADOWS
    }

    #[verifier::when_used_as_spec(spec_is_renderable)]
    pub fn is_renderable(&self) -> (renderable: bool)
        ensures
            renderable == self.spec_is_renderable(),
    {
        self.point_light_shadow_casters <= NUMBER_OF_POINT_LIGHTS_WITH_SHADOWS
    }
}

} // verus!
