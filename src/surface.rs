//! Size-derived descriptors: the surface configuration and the depth target.
use vstd::prelude::*;

verus! {

/// A two-dimensional size in pixels.
#[derive(Clone, Copy, Debug, PartialEq, Eq, Structural)]
pub struct Extent {
    pub width: u32,
    pub height: u32,
}

impl Extent {
    /// A size with a zero side, as a minimized window reports.
    pub open spec fn degenerate(self) -> bool {
        self.width == 0 || self.height == 0
    }

    pub fn is_degenerate(&self) -> (r: bool)
        ensures
            r == self.degenerate(),
    {
        self.width == 0 || self.height == 0
    }
}

/// How presented frames are paced against the display.
#[derive(Clone, Copy, Debug, PartialEq, Eq, Structural)]
pub enum PresentMode {
    /// Show the most recent frame, replacing older queued ones.
    Recent,
}

/// The color space the surface presents in.
#[derive(Clone, Copy, Debug, PartialEq, Eq, Structural)]
pub enum SurfaceColorSpace {
    Srgb,
}

/// How the presentable surface is configured for a size.
#[derive(Clone, Copy, Debug, PartialEq, Eq, Structural)]
pub struct SurfaceSettings {
    pub width: u32,
    pub height: u32,
    pub depth: u32,
    /// The surface images are used as render targets.
    pub render_target: bool,
    pub present_mode: PresentMode,
    pub transparent: bool,
    pub allow_exclusive_full_screen: bool,
    pub color_space: SurfaceColorSpace,
}

pub open spec fn surface_settings_spec(size: Extent) -> SurfaceSettings {
    SurfaceSettings {
        width: size.width,
        height: size.height,
        depth: 1,
        render_target: true,
        present_mode: PresentMode::Recent,
        transparent: false,
        allow_exclusive_full_screen: false,
        color_space: SurfaceColorSpace::Srgb,
    }
}

/// The surface configuration for a window of the given size.
pub fn make_surface_config(size: Extent) -> (c: SurfaceSettings)
    ensures
        c == surface_settings_spec(size),
{
    SurfaceSettings {
        width: size.width,
        height: size.height,
        depth: 1,
        render_target: true,
        present_mode: PresentMode::Recent,
        transparent: false,
        allow_exclusive_full_screen: false,
        color_space: SurfaceColorSpace::Srgb,
    }
}

/// The depth texture for a surface: a single 2D 32-bit float depth image used
/// as a render target, whose view covers the whole texture.
#[derive(Clone, Copy, Debug, PartialEq, Eq, Structural)]
pub struct DepthTextureDesc {
    pub width: u32,
    pub height: u32,
    pub depth: u32,
    pub mip_level_count: u32,
    pub array_layer_count: u32,
    pub sample_count: u32,
}

pub open spec fn depth_desc_spec(size: Extent) -> DepthTextureDesc {
    DepthTextureDesc {
        width: size.width,
        height: size.height,
        depth: 1,
        mip_level_count: 1,
        array_layer_count: 1,
        sample_count: 1,
    }
}

/// The depth texture descriptor for a surface of the given size.
pub fn depth_texture_desc(size: Extent) -> (d: DepthTextureDesc)
    ensures
        d == depth_desc_spec(size),
{
    DepthTextureDesc {
        width: size.width,
        height: size.height,
        depth: 1,
        mip_level_count: 1,
        array_layer_count: 1,
        sample_count: 1,
    }
}

} // verus!
