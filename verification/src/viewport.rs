//! Layout modes chosen from the viewport size.
use vstd::prelude::*;

use crate::constants::{MOBILE_BREAKPOINT_BITS, TABLET_BREAKPOINT_BITS};
use crate::scalar::{of_bits, real_le, real_lt, Scalar};

verus! {

/// Layout chosen from the viewport size.
#[derive(Clone, Copy, PartialEq, Eq, Debug, Structural)]
pub enum LayoutMode {
    /// Width of at least 1024 px.
    Desktop,
    /// Width from 768 px up to 1024 px.
    Tablet,
    /// Narrower than 768 px and taller than wide.
    MobilePortrait,
    /// Narrower than 768 px and at least as wide as tall.
    MobileLandscape,
}

impl Default for LayoutMode {
    fn default() -> (r: LayoutMode)
        ensures
            r == LayoutMode::Desktop,
    {
        LayoutMode::Desktop
    }
}

/// The layout for a viewport of `width` x `height` logical pixels.
pub open spec fn layout_for(width: Scalar, height: Scalar) -> LayoutMode {
    if real_le(of_bits(TABLET_BREAKPOINT_BITS), width) {
        LayoutMode::Desktop
    } else if real_le(of_bits(MOBILE_BREAKPOINT_BITS), width) {
        LayoutMode::Tablet
    } else if real_lt(width, height) {
        LayoutMode::MobilePortrait
    } else {
        LayoutMode::MobileLandscape
    }
}

impl LayoutMode {
    /// Layout from viewport dimensions.
    pub fn from_dimensions(width: Scalar, height: Scalar) -> (r: LayoutMode)
        ensures
            r == layout_for(width, height),
            real_lt(width, of_bits(MOBILE_BREAKPOINT_BITS)) ==> (r == LayoutMode::MobilePortrait
                <==> real_lt(width, height)),
    {
        if width.ge(Scalar { bits: TABLET_BREAKPOINT_BITS }) {
            LayoutMode::Desktop
        } else if width.ge(Scalar { bits: MOBILE_BREAKPOINT_BITS }) {
            LayoutMode::Tablet
        } else if height.gt(width) {
            LayoutMode::MobilePortrait
        } else {
            LayoutMode::MobileLandscape
        }
    }

    /// A mobile layout (portrait or landscape).
    pub fn is_mobile(self) -> (r: bool)
        ensures
            r == (self == LayoutMode::MobilePortrait || self == LayoutMode::MobileLandscape),
    {
        match self {
            LayoutMode::MobilePortrait | LayoutMode::MobileLandscape => true,
            _ => false,
        }
    }

    /// The portrait mobile layout.
    pub fn is_portrait(self) -> (r: bool)
        ensures
            r == (self == LayoutMode::MobilePortrait),
    {
        match self {
            LayoutMode::MobilePortrait => true,
            _ => false,
        }
    }
}

/// A viewport narrower than the mobile breakpoint gets a mobile layout, a
/// wider one never does; a mobile viewport is portrait exactly when it is
/// taller than wide, and landscape otherwise.
pub proof fn law_layout_breakpoints(width: Scalar, height: Scalar)
    requires
        !width.nan(),
    ensures
        (layout_for(width, height) == LayoutMode::MobilePortrait || layout_for(width, height)
            == LayoutMode::MobileLandscape) <==> real_lt(width, of_bits(MOBILE_BREAKPOINT_BITS)),
        layout_for(width, height) == LayoutMode::MobilePortrait ==> real_lt(width, height),
        layout_for(width, height) == LayoutMode::Desktop <==> real_le(
            of_bits(TABLET_BREAKPOINT_BITS),
            width,
        ),
        real_lt(width, of_bits(MOBILE_BREAKPOINT_BITS)) ==> (layout_for(width, height)
            == LayoutMode::MobilePortrait <==> real_lt(width, height)),
        real_lt(width, of_bits(MOBILE_BREAKPOINT_BITS)) && !real_lt(width, height) ==> layout_for(
            width,
            height,
        ) == LayoutMode::MobileLandscape,
{
}

} // verus!
