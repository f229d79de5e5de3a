//! Initialization failures the library itself can decide. Any failure is
//! fatal to the demo: the caller reports the message and exits.

use vstd::prelude::*;

verus! {

/// Why initialization planning failed.
#[derive(Clone, Copy, Debug, PartialEq, Eq, Structural)]
pub enum InitError {
    /// Device enumeration returned no physical device at all.
    NoDevice,
    /// The chosen physical device exposes no graphics-capable queue family.
    NoGraphicsQueueFamily,
    /// The surface reports no supported format to render into.
    NoSurfaceFormat,
    /// The surface supports no composite-alpha mode.
    NoCompositeAlpha,
}

/// The message reported for each failure.
pub open spec fn message_of(e: InitError) -> Seq<char> {
    match e {
        InitError::NoDevice => "No device available"@,
        InitError::NoGraphicsQueueFamily => "No graphical queue family"@,
        InitError::NoSurfaceFormat => "No supported surface format"@,
        InitError::NoCompositeAlpha => "No supported composite alpha"@,
    }
}

impl InitError {
    /// A human-readable description of the failed step.
    pub fn message(&self) -> (s: &'static str)
        ensures
            s@ == message_of(*self),
    {
        match self {
            InitError::NoDevice => "No device available",
            InitError::NoGraphicsQueueFamily => "No graphical queue family",
            InitError::NoSurfaceFormat => "No supported surface format",
            InitError::NoCompositeAlpha => "No supported composite alpha",
        }
    }
}

} // verus!
