//! Plain-value models of the surface capabilities the driver reports, and
//! the first-match selections the demo makes over them.

use vstd::prelude::*;

verus! {

/// A two-dimensional extent in pixels.
#[derive(Clone, Copy, Debug, PartialEq, Eq, Structural)]
pub struct Extent2d {
    pub width: u32,
    pub height: u32,
}

/// The pixel formats this demo can meet; anything else is carried by id.
#[derive(Clone, Copy, Debug, PartialEq, Eq, Structural)]
pub enum ImageFormat {
    R8G8B8A8Unorm,
    B8G8R8A8Unorm,
    B8G8R8A8Srgb,
    Other(u32),
}

/// The color space a surface format is paired with.
#[derive(Clone, Copy, Debug, PartialEq, Eq, Structural)]
pub enum ColorSpace {
    SrgbNonLinear,
    Other(u32),
}

/// One entry of the surface's supported-formats list.
#[derive(Clone, Copy, Debug, PartialEq, Eq, Structural)]
pub struct SurfaceFormat {
    pub format: ImageFormat,
    pub color_space: ColorSpace,
}

/// How the swapchain image is composited with the rest of the display.
#[derive(Clone, Copy, Debug, PartialEq, Eq, Structural)]
pub enum CompositeAlpha {
    Opaque,
    PreMultiplied,
    PostMultiplied,
    Inherit,
}

/// Which composite-alpha modes the surface supports, in the order the
/// driver's capability structure lists them.
#[derive(Clone, Copy, Debug, PartialEq, Eq, Structural)]
pub struct SupportedCompositeAlpha {
    pub opaque: bool,
    pub pre_multiplied: bool,
    pub post_multiplied: bool,
    pub inherit: bool,
}

impl SupportedCompositeAlpha {
    /// Some composite-alpha mode is supported.
    pub open spec fn any(self) -> bool {
        self.opaque || self.pre_multiplied || self.post_multiplied || self.inherit
    }

    /// Whether `a` is one of the supported modes.
    pub open spec fn supports(self, a: CompositeAlpha) -> bool {
        match a {
            CompositeAlpha::Opaque => self.opaque,
            CompositeAlpha::PreMultiplied => self.pre_multiplied,
            CompositeAlpha::PostMultiplied => self.post_multiplied,
            CompositeAlpha::Inherit => self.inherit,
        }
    }

    /// The first supported mode, in listing order.
    pub open spec fn first_spec(self) -> CompositeAlpha
        recommends
            self.any(),
    {
        if self.opaque {
            CompositeAlpha::Opaque
        } else if self.pre_multiplied {
            CompositeAlpha::PreMultiplied
        } else if self.post_multiplied {
            CompositeAlpha::PostMultiplied
        } else {
            CompositeAlpha::Inherit
        }
    }
}

/// First-match scan over the composite-alpha capability: the first supported
/// mode in listing order, or `None` when the surface supports none.
pub fn first_composite_alpha(sup: &SupportedCompositeAlpha) -> (r: Option<CompositeAlpha>)
    ensures
        r is Some <==> sup.any(),
        r is Some ==> r->0 == sup.first_spec() && sup.supports(r->0),
{
    if sup.opaque {
        Some(CompositeAlpha::Opaque)
    } else if sup.pre_multiplied {
        Some(CompositeAlpha::PreMultiplied)
    } else if sup.post_multiplied {
        Some(CompositeAlpha::PostMultiplied)
    } else if sup.inherit {
        Some(CompositeAlpha::Inherit)
    } else {
        None
    }
}

/// How the presentation engine paces frames.
#[derive(Clone, Copy, Debug, PartialEq, Eq, Structural)]
pub enum PresentMode {
    Immediate,
    Mailbox,
    Fifo,
    Relaxed,
}

/// Which pacing modes the surface supports.
#[derive(Clone, Copy, Debug, PartialEq, Eq, Structural)]
pub struct SupportedPresentModes {
    pub immediate: bool,
    pub mailbox: bool,
    pub fifo: bool,
    pub relaxed: bool,
}

/// How the surface is rotated or mirrored before presentation.
#[derive(Clone, Copy, Debug, PartialEq, Eq, Structural)]
pub enum SurfaceTransform {
    Identity,
    Rotate90,
    Rotate180,
    Rotate270,
    HorizontalMirror,
    HorizontalMirrorRotate90,
    HorizontalMirrorRotate180,
    HorizontalMirrorRotate270,
    Inherit,
}

/// Which transforms the surface supports.
#[derive(Clone, Copy, Debug, PartialEq, Eq, Structural)]
pub struct SupportedTransforms {
    pub identity: bool,
    pub rotate90: bool,
    pub rotate180: bool,
    pub rotate270: bool,
    pub horizontal_mirror: bool,
    pub horizontal_mirror_rotate90: bool,
    pub horizontal_mirror_rotate180: bool,
    pub horizontal_mirror_rotate270: bool,
    pub inherit: bool,
}

/// Which usages the swapchain images may be created with.
#[derive(Clone, Copy, Debug, PartialEq, Eq, Structural)]
pub struct ImageUsage {
    pub transfer_source: bool,
    pub transfer_destination: bool,
    pub sampled: bool,
    pub storage: bool,
    pub color_attachment: bool,
    pub depth_stencil_attachment: bool,
    pub transient_attachment: bool,
    pub input_attachment: bool,
}

/// The surface capabilities the demo reads, as plain values.
#[derive(Clone, Debug)]
pub struct SurfaceCaps {
    /// Fewest swapchain images the surface accepts.
    pub min_image_count: u32,
    /// Most swapchain images the surface accepts, when bounded.
    pub max_image_count: Option<u32>,
    /// The surface's current extent, when the platform fixes one.
    pub current_extent: Option<Extent2d>,
    /// Smallest extent a swapchain may have.
    pub min_image_extent: Extent2d,
    /// Largest extent a swapchain may have.
    pub max_image_extent: Extent2d,
    /// Most array layers a swapchain image may have.
    pub max_image_array_layers: u32,
    /// Transforms the surface supports.
    pub supported_transforms: SupportedTransforms,
    /// Format and color-space pairs the surface supports, in driver order.
    pub supported_formats: Vec<SurfaceFormat>,
    /// Composite-alpha modes the surface supports.
    pub supported_composite_alpha: SupportedCompositeAlpha,
    /// Pacing modes the surface supports.
    pub present_modes: SupportedPresentModes,
    /// Usages the swapchain images may be created with.
    pub supported_usage_flags: ImageUsage,
}

/// First-match scan over the supported formats: the first entry of the
/// driver's list, or `None` when the list is empty.
pub fn first_surface_format(formats: &Vec<SurfaceFormat>) -> (r: Option<SurfaceFormat>)
    ensures
        r is Some <==> formats@.len() > 0,
        r is Some ==> r->0 == formats@[0],
{
    if formats.len() > 0 {
        Some(formats[0])
    } else {
        None
    }
}

} // verus!
