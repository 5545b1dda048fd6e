//! Layer tagging: each camera and each renderable object carries a set of
//! render layers, one bit per layer index. A camera draws an object iff the
//! two masks intersect.

use vstd::prelude::*;

verus! {

/// Render layer index drawn by the primary camera.
pub const PRIMARY_LAYER: u32 = 0;

/// Render layer index drawn by the secondary camera.
pub const SECONDARY_LAYER: u32 = 1;

/// A set of render layers, one bit per layer index.
#[derive(Clone, Copy, PartialEq, Eq, Structural, Debug)]
pub struct LayerMask {
    pub bits: u32,
}

impl LayerMask {
    /// Whether the two masks share at least one layer.
    pub open spec fn spec_intersects(self, other: LayerMask) -> bool {
        self.bits & other.bits != 0
    }

    /// The mask containing exactly the one given layer.
    pub fn single(layer: u32) -> (m: LayerMask)
        requires
            layer < 32,
        ensures
            m.bits == 1u32 << layer,
    {
        LayerMask { bits: 1u32 << layer }
    }

    /// The mask containing every layer of either operand.
    pub fn union(self, other: LayerMask) -> (m: LayerMask)
        ensures
            m.bits == self.bits | other.bits,
    {
        LayerMask { bits: self.bits | other.bits }
    }

    /// Whether the two masks share at least one layer.
    pub fn intersects(self, other: LayerMask) -> (b: bool)
        ensures
            b == self.spec_intersects(other),
    {
        self.bits & other.bits != 0
    }
}

} // verus!
