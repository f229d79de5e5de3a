//! Which instance extensions each presentation backend asks for.

use vstd::prelude::*;

verus! {

/// The instance extensions the demo may request, as plain flags.
#[derive(Clone, Copy, Debug, PartialEq, Eq, Structural)]
pub struct InstanceExtensions {
    pub khr_surface: bool,
    pub khr_display: bool,
    pub khr_xlib_surface: bool,
    pub khr_xcb_surface: bool,
    pub khr_wayland_surface: bool,
    pub khr_android_surface: bool,
    pub khr_win32_surface: bool,
    pub ext_debug_report: bool,
}

/// No extension requested.
pub open spec fn no_extensions() -> InstanceExtensions {
    InstanceExtensions {
        khr_surface: false,
        khr_display: false,
        khr_xlib_surface: false,
        khr_xcb_surface: false,
        khr_wayland_surface: false,
        khr_android_surface: false,
        khr_win32_surface: false,
        ext_debug_report: false,
    }
}

/// The extensions required to present straight into a display plane:
/// exactly the display extension, nothing else.
pub fn display_required_extensions() -> (r: InstanceExtensions)
    ensures
        r == (InstanceExtensions { khr_display: true, ..no_extensions() }),
{
    InstanceExtensions {
        khr_surface: false,
        khr_display: true,
        khr_xlib_surface: false,
        khr_xcb_surface: false,
        khr_wayland_surface: false,
        khr_android_surface: false,
        khr_win32_surface: false,
        ext_debug_report: false,
    }
}

} // verus!
