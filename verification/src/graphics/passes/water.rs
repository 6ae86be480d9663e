//! The pass that draws the water into the forward colour target.

use vstd::prelude::*;
use wgpu::TextureFormat;

verus! {

/// The label of the water pass.
pub const PASS_NAME: &'static str = "water render pass";

/// A set of bindings that a pass binds when it begins.
#[derive(Clone, Copy, Debug, PartialEq, Eq, Structural)]
pub enum BindGroup {
    /// The uniforms and samplers that all passes share.
    Global,
    /// The bindings of the forward passes.
    Forward,
}

/// A texture that a pass renders to.
#[derive(Clone, Copy, Debug, PartialEq, Eq, Structural)]
pub enum RenderTarget {
    /// The colour target of the forward passes.
    ForwardColor,
    /// The target that the multisampled colour is resolved into.
    ResolvedColor,
}

/// What happens to the contents of an attachment when a pass begins.
#[derive(Clone, Copy, Debug, PartialEq, Eq, Structural)]
pub enum LoadOp {
    /// The contents are kept.
    Load,
    /// The contents are cleared.
    Clear,
}

/// What happens to the contents of an attachment when a pass ends.
#[derive(Clone, Copy, Debug, PartialEq, Eq, Structural)]
pub enum StoreOp {
    /// The contents are written back.
    Store,
    /// The contents are dropped.
    Discard,
}

/// A colour attachment of a pass.
#[derive(Clone, Copy, Debug, PartialEq, Eq, Structural)]
pub struct ColorAttachment {
    pub view: RenderTarget,
    pub resolve_target: Option<RenderTarget>,
    pub load: LoadOp,
    pub store: StoreOp,
}

/// What a pass is begun with.
#[derive(Clone, Copy, Debug)]
pub struct RenderPassDescription {
    pub label: &'static str,
    /// The only colour attachment.
    pub color_attachment: ColorAttachment,
    /// Whether the pass has a depth attachment.
    pub depth_stencil_attachment: bool,
    /// The sets of bindings that are bound when the pass begins, by the
    /// number of the set.
    pub bind_groups: [BindGroup; 2],
}

/// The context of the water pass: one colour attachment, no depth
/// attachment, two sets of bindings.
#[derive(Clone, Copy, Debug)]
pub struct WaterRenderPassContext {
    pub color_texture_format: TextureFormat,
}

impl WaterRenderPassContext {
    /// The colour attachment of the water pass: the forward colour target,
    /// drawn over what it holds, and resolved if it is multisampled.
    pub open spec fn color_attachment(multisampled: bool) -> ColorAttachment {
        ColorAttachment {
            view: RenderTarget::ForwardColor,
            resolve_target: if multisampled {
                Some(RenderTarget::ResolvedColor)
            } else {
                None
            },
            load: LoadOp::Load,
            store: StoreOp::Store,
        }
    }

    /// Makes the context for a forward colour target of the given format.
    pub fn new(forward_color_format: TextureFormat) -> (context: WaterRenderPassContext)
        ensures
            context.color_texture_format == forward_color_format,
    {
        WaterRenderPassContext { color_texture_format: forward_color_format }
    }

    /// Describes the pass to begin. `multisampled` tells whether the forward
    /// colour target is resolved into another texture.
    pub fn create_pass(&mut self, multisampled: bool) -> (pass: RenderPassDescription)
        ensures
            *final(self) == *old(self),
            pass.label == PASS_NAME,
            pass.color_attachment == WaterRenderPassContext::color_attachment(multisampled),
            !pass.depth_stencil_attachment,
            pass.bind_groups@ == seq![BindGroup::Global, BindGroup::Forward],
    {
        let bind_groups = WaterRenderPassContext::bind_group_layout();
        RenderPassDescription {
            label: PASS_NAME,
            color_attachment: ColorAttachment {
                view: RenderTarget::ForwardColor,
                resolve_target: if multisampled {
                    Some(RenderTarget::ResolvedColor)
                } else {
                    None
                },
                load: LoadOp::Load,
                store: StoreOp::Store,
            },
            depth_stencil_attachment: false,
            bind_groups,
        }
    }

    /// The sets of bindings of the pass: the shared set first, the set of
    /// the forward passes second.
    pub fn bind_group_layout() -> (layout: [BindGroup; 2])
        ensures
            layout@ == seq![BindGroup::Global, BindGroup::Forward],
    {
        let layout = [BindGroup::Global, BindGroup::Forward];
        assert(layout@ =~= seq![BindGroup::Global, BindGroup::Forward]);
        layout
    }

    /// The format of the only colour attachment.
    pub fn color_attachment_formats(&self) -> (formats: [TextureFormat; 1])
        ensures
            formats@ == seq![self.color_texture_format],
    {
        let formats = [self.color_texture_format];
        assert(formats@ =~= seq![self.color_texture_format]);
        formats
    }

    /// The pass writes no depth.
    pub fn depth_attachment_output_format(&self) -> (formats: [TextureFormat; 0])
        ensures
            formats@.len() == 0,
    {
        []
    }
}

} // verus!
