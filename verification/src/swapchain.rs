//! Assembling the swapchain creation parameters from the surface
//! capabilities: every choice the demo makes ahead of the creation call.

use vstd::prelude::*;
use crate::error::InitError;
use crate::surface::CompositeAlpha;
use crate::surface::Extent2d;
use crate::surface::ColorSpace;
use crate::surface::ImageFormat;
use crate::surface::ImageUsage;
use crate::surface::PresentMode;
use crate::surface::SurfaceCaps;
use crate::surface::SurfaceTransform;
use crate::surface::first_composite_alpha;
use crate::surface::first_surface_format;

verus! {

/// Width used for a windowed swapchain when the platform leaves it free.
pub const FALLBACK_WIDTH: u32 = 1280;

/// Height used for a windowed swapchain when the platform leaves it free.
pub const FALLBACK_HEIGHT: u32 = 1024;

/// Everything the swapchain creation call is given, decided ahead of it.
#[derive(Clone, Copy, Debug, PartialEq, Eq, Structural)]
pub struct SwapchainParams {
    /// How many images the swapchain holds: the fewest the surface accepts.
    pub image_count: u32,
    /// The image format: the first the surface lists.
    pub format: ImageFormat,
    /// The color space paired with that format.
    pub color_space: ColorSpace,
    /// The images' extent.
    pub dimensions: Extent2d,
    /// How many array layers each image has.
    pub layers: u32,
    /// The usages the images are created with: all the surface supports.
    pub usage: ImageUsage,
    /// How the surface is transformed before presentation.
    pub transform: SurfaceTransform,
    /// How the image is composited: the first supported mode.
    pub alpha: CompositeAlpha,
    /// How presentation is paced.
    pub present_mode: PresentMode,
    /// Whether pixels hidden by other windows may be discarded.
    pub clipped: bool,
}

/// The capabilities allow a swapchain: there is a supported format and a
/// supported composite-alpha mode.
pub open spec fn params_ok(caps: SurfaceCaps) -> bool {
    caps.supported_formats@.len() > 0 && caps.supported_composite_alpha.any()
}

/// Which step fails when the capabilities do not allow a swapchain: the
/// format list is checked first, the composite-alpha modes second.
pub open spec fn params_failure(caps: SurfaceCaps) -> InitError
    recommends
        !params_ok(caps),
{
    if caps.supported_formats@.len() == 0 {
        InitError::NoSurfaceFormat
    } else {
        InitError::NoCompositeAlpha
    }
}

/// The parameters chosen from capabilities that allow a swapchain: the
/// fewest images the surface accepts, its first listed format, one layer,
/// every supported usage, the identity transform, the first supported
/// composite-alpha mode, first-in-first-out pacing, and clipping on.
pub open spec fn chosen_params(caps: SurfaceCaps, dimensions: Extent2d) -> SwapchainParams
    recommends
        params_ok(caps),
{
    SwapchainParams {
        image_count: caps.min_image_count,
        format: caps.supported_formats@[0].format,
        color_space: caps.supported_formats@[0].color_space,
        dimensions: dimensions,
        layers: 1,
        usage: caps.supported_usage_flags,
        transform: SurfaceTransform::Identity,
        alpha: caps.supported_composite_alpha.first_spec(),
        present_mode: PresentMode::Fifo,
        clipped: true,
    }
}

/// Assemble the swapchain parameters for a surface of the given extent, or
/// say which capability was missing.
pub fn swapchain_params(caps: &SurfaceCaps, dimensions: Extent2d) -> (r: Result<
    SwapchainParams,
    InitError,
>)
    ensures
        params_ok(*caps) ==> r == Ok::<SwapchainParams, InitError>(
            chosen_params(*caps, dimensions),
        ),
        !params_ok(*caps) ==> r == Err::<SwapchainParams, InitError>(params_failure(*caps)),
{
    let sf = match first_surface_format(&caps.supported_formats) {
        Some(sf) => sf,
        None => {
            return Err(InitError::NoSurfaceFormat);
        },
    };
    let alpha = match first_composite_alpha(&caps.supported_composite_alpha) {
        Some(a) => a,
        None => {
            return Err(InitError::NoCompositeAlpha);
        },
    };
    Ok(SwapchainParams {
        image_count: caps.min_image_count,
        format: sf.format,
        color_space: sf.color_space,
        dimensions: dimensions,
        layers: 1,
        usage: caps.supported_usage_flags,
        transform: SurfaceTransform::Identity,
        alpha: alpha,
        present_mode: PresentMode::Fifo,
        clipped: true,
    })
}

/// The extent of a swapchain rendered into a display plane: the display
/// mode's visible region, handed in by the caller.
pub fn display_swapchain_params(caps: &SurfaceCaps, visible_region: Extent2d) -> (r: Result<
    SwapchainParams,
    InitError,
>)
    ensures
        params_ok(*caps) ==> r == Ok::<SwapchainParams, InitError>(
            chosen_params(*caps, visible_region),
        ),
        !params_ok(*caps) ==> r == Err::<SwapchainParams, InitError>(params_failure(*caps)),
{
    swapchain_params(caps, visible_region)
}

/// The extent chosen for a windowed swapchain: the surface's current extent
/// when the platform fixes one, else the fallback.
pub open spec fn window_extent_spec(current: Option<Extent2d>) -> Extent2d {
    match current {
        Some(e) => e,
        None => Extent2d { width: FALLBACK_WIDTH, height: FALLBACK_HEIGHT },
    }
}

/// Assemble the swapchain parameters for a windowed surface, taking the
/// window's current extent when the platform reports one.
pub fn window_swapchain_params(caps: &SurfaceCaps) -> (r: Result<SwapchainParams, InitError>)
    ensures
        params_ok(*caps) ==> r == Ok::<SwapchainParams, InitError>(
            chosen_params(*caps, window_extent_spec(caps.current_extent)),
        ),
        !params_ok(*caps) ==> r == Err::<SwapchainParams, InitError>(params_failure(*caps)),
{
    let dimensions = match caps.current_extent {
        Some(e) => e,
        None => Extent2d { width: FALLBACK_WIDTH, height: FALLBACK_HEIGHT },
    };
    swapchain_params(caps, dimensions)
}

} // verus!
