//! Asset sizing: the pixel footprint of an optional visual asset.

use vstd::prelude::*;

verus! {

/// Footprint of a visual asset: its width and height in length units.
#[derive(Clone, Copy, PartialEq, Eq, Structural, Debug)]
pub struct Size {
    pub w: i64,
    pub h: i64,
}

/// The footprint that collision bounds are computed from: the asset's own
/// dimensions, or a 1x1 unit square when the asset is absent or unresolved.
pub open spec fn spec_size(asset: Option<Size>) -> Size {
    match asset {
        Some(s) => s,
        None => Size { w: 1, h: 1 },
    }
}

/// Sizing provider: returns the asset's footprint, defaulting to 1x1 when
/// no resolved asset is attached.
pub fn get_size(asset: Option<Size>) -> (r: Size)
    ensures
        r == spec_size(asset),
{
    match asset {
        Some(s) => s,
        None => Size { w: 1, h: 1 },
    }
}

} // verus!
