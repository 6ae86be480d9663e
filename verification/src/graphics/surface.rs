//! The presentable surface of the window.

use vstd::prelude::*;
use wgpu::TextureFormat;

use crate::graphics::settings::{PresentModeInfo, ScreenSize};

verus! {

/// `wgpu::TextureFormat`, the pixel format of a texture, as a value that is
/// passed on and compared but never looked into.
#[verifier::external_type_specification]
#[verifier::external_body]
pub struct ExTextureFormat(wgpu::TextureFormat);

/// Compares two pixel formats with `TextureFormat`'s `==`.
///
/// `TextureFormat` is a plain enum whose `PartialEq` is derived, so two
/// formats compare equal exactly when they are the same value.
#[verifier::external_body]
pub(crate) fn same_format(a: &TextureFormat, b: &TextureFormat) -> (same: bool)
    ensures
        same == (*a == *b),
{
    a == b
}

/// What the platform offers for a window: read from the window and the
/// adapter before the surface is configured.
#[derive(Clone, Copy, Debug)]
pub struct WindowSurface {
    /// The inner size of the window.
    pub inner_size: ScreenSize,
    /// The pixel format that was negotiated for the window's surface.
    pub format: TextureFormat,
    pub present_mode_info: PresentModeInfo,
}

/// A frame of the surface that was acquired for rendering and is presented
/// when rendering is done.
#[derive(Debug)]
pub struct SurfaceTexture {
    pub size: ScreenSize,
    pub format: TextureFormat,
}

/// The configuration of the presentable surface, and whether the surface
/// still matches it.
///
/// A change of the configuration makes the surface invalid; it has to be
/// configured again before the next frame is acquired.
#[derive(Clone, Copy, Debug)]
pub struct Surface {
    pub format: TextureFormat,
    pub window_size: ScreenSize,
    pub triple_buffering: bool,
    pub vsync: bool,
    pub present_mode_info: PresentModeInfo,
    pub invalid: bool,
}

impl Surface {
    /// A freshly configured surface.
    pub open spec fn spec_new(
        window: WindowSurface,
        window_size: ScreenSize,
        triple_buffering: bool,
        vsync: bool,
    ) -> Surface {
        Surface {
            format: window.format,
            window_size,
            triple_buffering,
            vsync,
            present_mode_info: window.present_mode_info,
            invalid: false,
        }
    }

    /// The surface after a change of its configuration.
    pub open spec fn invalidated(self) -> Surface {
        Surface { invalid: true, ..self }
    }

    /// The surface after it was configured again.
    pub open spec fn reconfigured(self) -> Surface {
        Surface { invalid: false, ..self }
    }

    /// The frame that the surface hands out.
    pub open spec fn frame(self) -> SurfaceTexture {
        SurfaceTexture { size: self.window_size, format: self.format }
    }

    pub fn new(window: &WindowSurface, window_size: ScreenSize, triple_buffering: bool, vsync: bool) -> (surface: Surface)
        ensures
            surface == Surface::spec_new(*window, window_size, triple_buffering, vsync),
    {
        Surface {
            format: window.format,
            window_size,
            triple_buffering,
            vsync,
            present_mode_info: window.present_mode_info,
            invalid: false,
        }
    }

    pub fn format(&self) -> (format: TextureFormat)
        ensures
            format == self.format,
    {
        self.format
    }

    pub fn present_mode_info(&self) -> (info: PresentModeInfo)
        ensures
            info == self.present_mode_info,
    {
        self.present_mode_info
    }

    pub fn window_size(&self) -> (size: ScreenSize)
        ensures
            size == self.window_size,
    {
        self.window_size
    }

    pub fn window_screen_size(&self) -> (size: ScreenSize)
        ensures
            size == self.window_size,
    {
        self.window_size
    }

    pub fn is_invalid(&self) -> (invalid: bool)
        ensures
            invalid == self.invalid,
    {
        self.invalid
    }

    pub fn invalidate(&mut self)
        ensures
            *final(self) == old(self).invalidated(),
    {
        self.invalid = true;
    }

    pub fn reconfigure(&mut self)
        ensures
            *final(self) == old(self).reconfigured(),
    {
        self.invalid = false;
    }

    pub fn set_vsync(&mut self, enabled: bool)
        ensures
            *final(self) == (Surface { vsync: enabled, ..*old(self) }).invalidated(),
    {
        self.vsync = enabled;
        self.invalid = true;
    }

    pub fn set_triple_buffering(&mut self, enabled: bool)
        ensures
            *final(self) == (Surface { triple_buffering: enabled, ..*old(self) }).invalidated(),
    {
        self.triple_buffering = enabled;
        self.invalid = true;
    }

    pub fn update_window_size(&mut self, window_size: ScreenSize)
        ensures
            *final(self) == (Surface { window_size, ..*old(self) }).invalidated(),
    {
        self.window_size = window_size;
        self.invalid = true;
    }

    /// Acquires the next frame of the surface.
    pub fn acquire(&mut self) -> (frame: SurfaceTexture)
        ensures
            *final(self) == *old(self),
            frame == old(self).frame(),
    {
        SurfaceTexture { size: self.window_size, format: self.format }
    }
}

} // verus!
