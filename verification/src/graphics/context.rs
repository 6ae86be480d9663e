//! The resources on the device that live across frames.

use vstd::prelude::*;
use wgpu::TextureFormat;

use crate::graphics::frame_pacer::{advance_generation, next_generation};
use crate::graphics::passes::{Drawer, Pass, Resource};
use crate::graphics::settings::{ScreenSize, ShadowDetail, TextureSamplerType};

verus! {

/// The resources that all passes share: uniform buffers, samplers, the
/// shadow maps, the screen-sized render targets and the buffer that the
/// picker value is read back from.
///
/// A resource that depends on a size or an option is replaced in place when
/// that size or option changes. Each such group of resources carries a
/// generation that tells one incarnation from the next.
#[derive(Clone, Copy, Debug)]
pub struct GlobalContext {
    /// The pixel format of the surface that the context was built for.
    pub surface_format: TextureFormat,
    pub screen_size: ScreenSize,
    pub shadow_detail: ShadowDetail,
    pub texture_sampler_type: TextureSamplerType,
    /// Incarnation of the render targets that have the size of the screen.
    pub screen_size_textures: u64,
    /// Incarnation of the shadow maps.
    pub shadow_size_textures: u64,
    /// Incarnation of the sampler for world textures.
    pub texture_sampler: u64,
}

impl GlobalContext {
    pub open spec fn spec_new(
        surface_format: TextureFormat,
        screen_size: ScreenSize,
        shadow_detail: ShadowDetail,
        texture_sampler_type: TextureSamplerType,
    ) -> GlobalContext {
        GlobalContext {
            surface_format,
            screen_size,
            shadow_detail,
            texture_sampler_type,
            screen_size_textures: 0,
            shadow_size_textures: 0,
            texture_sampler: 0,
        }
    }

    /// The context after its sampler was replaced.
    pub open spec fn with_texture_sampler(self, texture_sampler_type: TextureSamplerType) -> GlobalContext {
        GlobalContext {
            texture_sampler_type,
            texture_sampler: next_generation(self.texture_sampler),
            ..self
        }
    }

    /// The context after its shadow maps were replaced.
    pub open spec fn with_shadow_detail(self, shadow_detail: ShadowDetail) -> GlobalContext {
        GlobalContext {
            shadow_detail,
            shadow_size_textures: next_generation(self.shadow_size_textures),
            ..self
        }
    }

    /// The context after its screen-sized render targets were replaced.
    pub open spec fn with_screen_size(self, screen_size: ScreenSize) -> GlobalContext {
        GlobalContext {
            screen_size,
            screen_size_textures: next_generation(self.screen_size_textures),
            ..self
        }
    }

    /// Width and height in texels of the directional shadow map.
    pub open spec fn directional_shadow_size(self) -> ScreenSize {
        ScreenSize {
            width: self.shadow_detail.directional_shadow_resolution(),
            height: self.shadow_detail.directional_shadow_resolution(),
        }
    }

    /// Width and height in texels of one face of a point shadow cube.
    pub open spec fn point_shadow_size(self) -> ScreenSize {
        ScreenSize {
            width: self.shadow_detail.point_shadow_resolution(),
            height: self.shadow_detail.point_shadow_resolution(),
        }
    }

    pub fn new(
        surface_format: TextureFormat,
        screen_size: ScreenSize,
        shadow_detail: ShadowDetail,
        texture_sampler_type: TextureSamplerType,
    ) -> (context: GlobalContext)
        ensures
            context == GlobalContext::spec_new(surface_format, screen_size, shadow_detail, texture_sampler_type),
    {
        GlobalContext {
            surface_format,
            screen_size,
            shadow_detail,
            texture_sampler_type,
            screen_size_textures: 0,
            shadow_size_textures: 0,
            texture_sampler: 0,
        }
    }

    /// Replaces the sampler for world textures. Nothing else is touched.
    pub fn update_texture_sampler(&mut self, texture_sampler_type: TextureSamplerType)
        ensures
            *final(self) == old(self).with_texture_sampler(texture_sampler_type),
    {
        self.texture_sampler_type = texture_sampler_type;
        self.texture_sampler = advance_generation(self.texture_sampler);
    }

    /// Replaces the shadow maps by maps of another size. Nothing else is
    /// touched.
    pub fn update_shadow_size_textures(&mut self, shadow_detail: ShadowDetail)
        ensures
            *final(self) == old(self).with_shadow_detail(shadow_detail),
    {
        self.shadow_detail = shadow_detail;
        self.shadow_size_textures = advance_generation(self.shadow_size_textures);
    }

    /// Replaces the render targets that have the size of the screen.
    /// Nothing else is touched.
    pub fn update_screen_size_textures(&mut self, screen_size: ScreenSize)
        ensures
            *final(self) == old(self).with_screen_size(screen_size),
    {
        self.screen_size = screen_size;
        self.screen_size_textures = advance_generation(self.screen_size_textures);
    }
}

/// Everything on the device that is specialised to the pixel format of the
/// surface: the shared resources, the six pass contexts and their drawers.
///
/// The whole set is built at once and never patched; `generation` tells one
/// build from the next.
#[derive(Clone, Copy, Debug)]
pub struct EngineContext {
    pub generation: u64,
    pub global_context: GlobalContext,
}

impl EngineContext {
    /// The generation of the context that replaces `previous`.
    pub open spec fn generation_after(previous: Option<EngineContext>) -> u64 {
        match previous {
            Some(context) => next_generation(context.generation),
            None => 0,
        }
    }

    /// The members of a context in the order in which they are built: the
    /// shared resources, the six pass contexts, then each drawer, which is
    /// built against the shared resources and the context of its pass.
    pub open spec fn spec_build_order(debug_overlays: bool) -> Seq<Resource> {
        seq![
            Resource::GlobalContext,
            Resource::PassContext(Pass::Interface),
            Resource::PassContext(Pass::Picker),
            Resource::PassContext(Pass::DirectionalShadow),
            Resource::PassContext(Pass::PointShadow),
            Resource::PassContext(Pass::Geometry),
            Resource::PassContext(Pass::Screen),
            Resource::Drawer(Drawer::InterfaceRectangle),
            Resource::Drawer(Drawer::PickerEntity),
            Resource::Drawer(Drawer::PickerTile),
            Resource::Drawer(Drawer::DirectionalShadowModel),
            Resource::Drawer(Drawer::DirectionalShadowEntity),
            Resource::Drawer(Drawer::DirectionalShadowIndicator),
            Resource::Drawer(Drawer::PointShadowModel),
            Resource::Drawer(Drawer::PointShadowEntity),
            Resource::Drawer(Drawer::PointShadowIndicator),
            Resource::Drawer(Drawer::GeometryModel),
            Resource::Drawer(Drawer::GeometryEntity),
            Resource::Drawer(Drawer::GeometryIndicator),
            Resource::Drawer(Drawer::GeometryWater),
            Resource::Drawer(Drawer::ScreenAmbientLight),
            Resource::Drawer(Drawer::ScreenDirectionalLight),
            Resource::Drawer(Drawer::ScreenPointLight),
            Resource::Drawer(Drawer::ScreenWaterLight),
            Resource::Drawer(Drawer::ScreenRectangle),
            Resource::Drawer(Drawer::ScreenEffect),
            Resource::Drawer(Drawer::ScreenOverlay),
        ] + (if debug_overlays {
            seq![
                Resource::Drawer(Drawer::PickerMarker),
                Resource::Drawer(Drawer::ScreenAabb),
                Resource::Drawer(Drawer::ScreenCircle),
                Resource::Drawer(Drawer::ScreenBuffer),
            ]
        } else {
            Seq::empty()
        })
    }

    /// Lists the members of a context in the order in which they are built.
    pub fn build_order(debug_overlays: bool) -> (order: Vec<Resource>)
        ensures
            order@ == EngineContext::spec_build_order(debug_overlays),
    {
        let mut order: Vec<Resource> = Vec::new();
        order.push(Resource::GlobalContext);
        order.push(Resource::PassContext(Pass::Interface));
        order.push(Resource::PassContext(Pass::Picker));
        order.push(Resource::PassContext(Pass::DirectionalShadow));
        order.push(Resource::PassContext(Pass::PointShadow));
        order.push(Resource::PassContext(Pass::Geometry));
        order.push(Resource::PassContext(Pass::Screen));
        order.push(Resource::Drawer(Drawer::InterfaceRectangle));
        order.push(Resource::Drawer(Drawer::PickerEntity));
        order.push(Resource::Drawer(Drawer::PickerTile));
        order.push(Resource::Drawer(Drawer::DirectionalShadowModel));
        order.push(Resource::Drawer(Drawer::DirectionalShadowEntity));
        order.push(Resource::Drawer(Drawer::DirectionalShadowIndicator));
        order.push(Resource::Drawer(Drawer::PointShadowModel));
        order.push(Resource::Drawer(Drawer::PointShadowEntity));
        order.push(Resource::Drawer(Drawer::PointShadowIndicator));
        order.push(Resource::Drawer(Drawer::GeometryModel));
        order.push(Resource::Drawer(Drawer::GeometryEntity));
        order.push(Resource::Drawer(Drawer::GeometryIndicator));
        order.push(Resource::Drawer(Drawer::GeometryWater));
        order.push(Resource::Drawer(Drawer::ScreenAmbientLight));
        order.push(Resource::Drawer(Drawer::ScreenDirectionalLight));
        order.push(Resource::Drawer(Drawer::ScreenPointLight));
        order.push(Resource::Drawer(Drawer::ScreenWaterLight));
        order.push(Resource::Drawer(Drawer::ScreenRectangle));
        order.push(Resource::Drawer(Drawer::ScreenEffect));
        order.push(Resource::Drawer(Drawer::ScreenOverlay));
        if debug_overlays {
            order.push(Resource::Drawer(Drawer::PickerMarker));
            order.push(Resource::Drawer(Drawer::ScreenAabb));
            order.push(Resource::Drawer(Drawer::ScreenCircle));
            order.push(Resource::Drawer(Drawer::ScreenBuffer));
        }
        assert(order@ =~= EngineContext::spec_build_order(debug_overlays));
        order
    }
}

/// Where the context of a pass stands in the order in which a context is
/// built.
pub open spec fn context_position(pass: Pass) -> int {
    match pass {
        Pass::Interface => 1,
        Pass::Picker => 2,
        Pass::DirectionalShadow => 3,
        Pass::PointShadow => 4,
        Pass::Geometry => 5,
        Pass::Screen => 6,
    }
}

/// A context is built from the ground up: first the shared resources, then
/// the context of each pass, then the drawers. So every drawer finds the
/// shared resources and the context of its pass built when it is built.
/// Nothing is built twice, and debugging aids are built only for an engine
/// with debug overlays.
pub proof fn lemma_drawers_are_built_last(debug_overlays: bool)
    ensures
        ({
            let order = EngineContext::spec_build_order(debug_overlays);
            &&& order[0] == Resource::GlobalContext
            &&& forall|pass: Pass| #[trigger] order[context_position(pass)] == Resource::PassContext(pass)
            &&& forall|index: int, pass: Pass|
                0 <= index < order.len() && (#[trigger] order[index]) is Drawer ==> #[trigger] context_position(pass)
                    < index
            &&& forall|index: int|
                0 <= index < order.len() ==> (#[trigger] order[index] matches Resource::Drawer(drawer)
                    ==> drawer.is_debug_aid() ==> debug_overlays)
            &&& order.no_duplicates()
        }),
{
    let order = EngineContext::spec_build_order(debug_overlays);
    assert(order.len() == if debug_overlays {
        31int
    } else {
        27int
    });
    assert forall|index: int| 0 <= index < 7 implies !((#[trigger] order[index]) is Drawer) by {}
}

} // verus!
