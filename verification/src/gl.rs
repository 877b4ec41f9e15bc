//! An optional graphics-context capability. A window that was opened with a
//! `GlConfig` owns one `GlContext` for its whole life; a window opened
//! without one has none.

use vstd::prelude::*;

verus! {

/// The configuration a graphics context is created with. Immutable once the
/// window is open.
#[derive(Clone, Copy, Debug, PartialEq, Eq, Structural)]
pub struct GlConfig {
    pub version_major: u8,
    pub version_minor: u8,
    pub double_buffer: bool,
}

/// A graphics context bound to one window. It is handed out only by
/// borrow from the window, so it cannot outlive it.
pub struct GlContext {
    config: GlConfig,
}

impl View for GlContext {
    type V = GlConfig;

    closed spec fn view(&self) -> GlConfig {
        self.config
    }
}

impl GlContext {
    pub(crate) fn new(config: GlConfig) -> (c: GlContext)
        ensures
            c@ == config,
    {
        GlContext { config }
    }

    /// The configuration this context was created with.
    pub fn config(&self) -> (c: GlConfig)
        ensures
            c == self@,
    {
        self.config
    }
}

} // verus!
