//! The configuration a window is opened with: title, logical size, the
//! DPI-scale policy, and an optional graphics-context configuration.
//! Immutable once passed to an open call.

use vstd::prelude::*;
use crate::gl::GlConfig;
use crate::window_info::Size;

verus! {

/// How logical pixels are converted to physical pixels: either the factor
/// the system reports, or a factor the caller fixes. Factors are carried in
/// hundredths, so `ScaleFactor(150)` means one-and-a-half.
#[derive(Clone, Copy, Debug, PartialEq, Eq, Structural)]
pub enum WindowScalePolicy {
    /// Use the DPI scale factor the system reports.
    SystemScaleFactor,
    /// Use this factor, in hundredths.
    ScaleFactor(u32),
}

/// The factor, in hundredths, that a policy resolves to on a system
/// reporting `system_scale_percent`.
pub open spec fn spec_resolve_scale(policy: WindowScalePolicy, system_scale_percent: u32) -> u32 {
    match policy {
        WindowScalePolicy::SystemScaleFactor => system_scale_percent,
        WindowScalePolicy::ScaleFactor(p) => p,
    }
}

/// Resolves the scale policy against the factor the system reports.
pub fn resolve_scale(policy: WindowScalePolicy, system_scale_percent: u32) -> (scale: u32)
    ensures
        scale == spec_resolve_scale(policy, system_scale_percent),
{
    match policy {
        WindowScalePolicy::SystemScaleFactor => system_scale_percent,
        WindowScalePolicy::ScaleFactor(p) => p,
    }
}

/// What a window is opened with.
pub struct WindowOpenOptions {
    pub title: String,
    /// The initial size, in logical pixels.
    pub size: Size,
    pub scale: WindowScalePolicy,
    /// If present, a graphics context is created for the window and is
    /// reachable through `Window::gl_context`.
    pub gl_config: Option<GlConfig>,
}

} // verus!
