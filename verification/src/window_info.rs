//! Logical and physical pixel sizes, and the scaling rule that converts
//! between them. A scale factor is carried in hundredths, so a factor of
//! two is written 200; physical pixels are the scaled logical pixels,
//! rounded half up.

use vstd::prelude::*;

verus! {

/// A size in logical pixels, before DPI scaling.
#[derive(Clone, Copy, Debug, PartialEq, Eq, Structural)]
pub struct Size {
    pub width: u32,
    pub height: u32,
}

impl Size {
    pub fn new(width: u32, height: u32) -> (s: Size)
        ensures
            s == (Size { width, height }),
    {
        Size { width, height }
    }
}

/// A size in physical device pixels, after DPI scaling.
#[derive(Clone, Copy, Debug, PartialEq, Eq, Structural)]
pub struct PhySize {
    pub width: u64,
    pub height: u64,
}

/// One logical length scaled to physical pixels: length times the factor in
/// hundredths, rounded half up.
pub open spec fn scaled_len(logical: u32, scale_percent: u32) -> int {
    (logical * scale_percent + 50) / 100
}

pub proof fn lemma_scaled_len_fits(logical: u32, scale_percent: u32)
    ensures
        0 <= logical * scale_percent <= 0xFFFF_FFFE_0000_0001,
        0 <= scaled_len(logical, scale_percent) < 0x1_0000_0000_0000_0000,
{
    assert(0 <= logical * scale_percent <= 0xFFFF_FFFE_0000_0001) by (nonlinear_arith)
        requires
            0 <= logical <= 0xFFFF_FFFFu32,
            0 <= scale_percent <= 0xFFFF_FFFFu32,
    ;
}

/// The size report that a `Resized` event carries: the logical size, the
/// scale factor that was active, and the physical size they determine.
#[derive(Clone, Copy, Debug, PartialEq, Eq, Structural)]
pub struct WindowInfo {
    pub logical: Size,
    pub scale_percent: u32,
    pub physical: PhySize,
}

/// The unique consistent size report for a logical size under a scale factor.
pub open spec fn spec_from_logical(logical: Size, scale_percent: u32) -> WindowInfo {
    WindowInfo {
        logical,
        scale_percent,
        physical: PhySize {
            width: scaled_len(logical.width, scale_percent) as u64,
            height: scaled_len(logical.height, scale_percent) as u64,
        },
    }
}

impl WindowInfo {
    /// Builds the size report for `logical` under `scale_percent`.
    pub fn from_logical(logical: Size, scale_percent: u32) -> (info: WindowInfo)
        ensures
            info == spec_from_logical(logical, scale_percent),
    {
        proof {
            lemma_scaled_len_fits(logical.width, scale_percent);
            lemma_scaled_len_fits(logical.height, scale_percent);
        }
        let width: u64 = ((logical.width as u64) * (scale_percent as u64) + 50) / 100;
        let height: u64 = ((logical.height as u64) * (scale_percent as u64) + 50) / 100;
        WindowInfo { logical, scale_percent, physical: PhySize { width, height } }
    }
}

} // verus!
