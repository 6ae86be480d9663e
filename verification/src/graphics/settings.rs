//! The options that a user can set, and the sizes they stand for.

use vstd::prelude::*;

verus! {

/// A size in physical pixels.
#[derive(Clone, Copy, Debug, PartialEq, Eq, Structural)]
pub struct ScreenSize {
    pub width: u32,
    pub height: u32,
}

impl ScreenSize {
    /// The larger of a window's inner size and one pixel by one pixel, where
    /// sizes are ordered by width first and by height second.
    ///
    /// The order is that of a pair, so a window of positive width keeps a
    /// height of zero.
    pub open spec fn spec_at_least_one_pixel(self) -> ScreenSize {
        if self.width == 0 || (self.width == 1 && self.height == 0) {
            ScreenSize { width: 1, height: 1 }
        } else {
            self
        }
    }

    /// Computes the surface size for a window's inner size.
    #[verifier::when_used_as_spec(spec_at_least_one_pixel)]
    pub fn at_least_one_pixel(self) -> (size: ScreenSize)
        ensures
            size == self.spec_at_least_one_pixel(),
            size.width >= 1,
    {
        if self.width < 1 || (self.width == 1 && self.height < 1) {
            ScreenSize { width: 1, height: 1 }
        } else {
            self
        }
    }
}

/// A position on the screen in physical pixels, counted from the top left.
#[derive(Clone, Copy, Debug, PartialEq, Eq, Structural)]
pub struct ScreenPosition {
    pub left: u32,
    pub top: u32,
}

/// Whether the engine holds back frames to match a refresh rate.
#[derive(Clone, Copy, Debug, PartialEq, Eq, Structural)]
pub enum LimitFramerate {
    Unlimited,
    /// Frames per second.
    Limit(u16),
}

/// The quality of the shadow maps.
#[derive(Clone, Copy, Debug, PartialEq, Eq, Structural)]
pub enum ShadowDetail {
    Low,
    Medium,
    High,
    Ultra,
}

impl ShadowDetail {
    /// Edge length in texels of the directional shadow map.
    pub open spec fn spec_directional_shadow_resolution(self) -> u32 {
        match self {
            ShadowDetail::Low => 512,
            ShadowDetail::Medium => 1024,
            ShadowDetail::High => 2048,
            ShadowDetail::Ultra => 8192,
        }
    }

    /// Edge length in texels of one face of a point light's shadow cube.
    pub open spec fn spec_point_shadow_resolution(self) -> u32 {
        match self {
            ShadowDetail::Low => 64,
            ShadowDetail::Medium => 128,
            ShadowDetail::High => 256,
            ShadowDetail::Ultra => 512,
        }
    }

    #[verifier::when_used_as_spec(spec_directional_shadow_resolution)]
    pub fn directional_shadow_resolution(self) -> (resolution: u32)
        ensures
            resolution == self.spec_directional_shadow_resolution(),
    {
        match self {
            ShadowDetail::Low => 512,
            ShadowDetail::Medium => 1024,
            ShadowDetail::High => 2048,
            ShadowDetail::Ultra => 8192,
        }
    }

    #[verifier::when_used_as_spec(spec_point_shadow_resolution)]
    pub fn point_shadow_resolution(self) -> (resolution: u32)
        ensures
            resolution == self.spec_point_shadow_resolution(),
    {
        match self {
            ShadowDetail::Low => 64,
            ShadowDetail::Medium => 128,
            ShadowDetail::High => 256,
            ShadowDetail::Ultra => 512,
        }
    }
}

/// Two detail levels with the same shadow map sizes are the same level.
pub proof fn lemma_shadow_resolution_tells_detail(a: ShadowDetail, b: ShadowDetail)
    ensures
        a.directional_shadow_resolution() == b.directional_shadow_resolution() ==> a == b,
        a.point_shadow_resolution() == b.point_shadow_resolution() ==> a == b,
{
}

/// How textures of the world are filtered.
#[derive(Clone, Copy, Debug, PartialEq, Eq, Structural)]
pub enum TextureSamplerType {
    Nearest,
    Linear,
    /// Anisotropic filtering with the given number of samples.
    Anisotropic(u16),
}

/// The presentation modes that a surface offers besides the queued one.
#[derive(Clone, Copy, Debug, PartialEq, Eq, Structural)]
pub struct PresentModeInfo {
    /// Frames can be shown at once, with tearing.
    pub supports_immediate: bool,
    /// Frames can replace a queued frame that was not shown yet.
    pub supports_mailbox: bool,
}

} // verus!
