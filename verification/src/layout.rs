//! Camera layout: computes each camera's viewport rectangle from the window's
//! physical size. The window is split into a left half (primary camera) and a
//! right half (secondary camera) by integer floor division of the width.

use vstd::prelude::*;

verus! {

/// Fixed horizontal offset of the primary viewport's left edge, in pixels.
/// A deliberate authoring asymmetry: the secondary viewport has no offset.
pub const PRIMARY_X_OFFSET: u32 = 20;

/// A rectangular sub-region of the window's pixel surface, in physical pixels.
#[derive(Clone, Copy, PartialEq, Eq, Structural, Debug)]
pub struct Viewport {
    pub x: u32,
    pub y: u32,
    pub width: u32,
    pub height: u32,
}

/// The primary camera's viewport for a window of physical size `(w, h)`:
/// the left half of the window, shifted right by the fixed offset.
pub open spec fn spec_primary_viewport(w: u32, h: u32) -> Viewport {
    Viewport { x: PRIMARY_X_OFFSET, y: 0, width: w / 2, height: h }
}

/// The secondary camera's viewport for a window of physical size `(w, h)`:
/// the right half of the window.
pub open spec fn spec_secondary_viewport(w: u32, h: u32) -> Viewport {
    Viewport { x: w / 2, y: 0, width: w / 2, height: h }
}

/// Computes the primary camera's viewport from the window size.
pub fn primary_viewport(w: u32, h: u32) -> (v: Viewport)
    ensures
        v == spec_primary_viewport(w, h),
        v.x == PRIMARY_X_OFFSET && v.y == 0,
        v.width == w / 2 && v.height == h,
{
    Viewport { x: PRIMARY_X_OFFSET, y: 0, width: w / 2, height: h }
}

/// Computes the secondary camera's viewport from the window size.
pub fn secondary_viewport(w: u32, h: u32) -> (v: Viewport)
    ensures
        v == spec_secondary_viewport(w, h),
        v.x == w / 2 && v.y == 0,
        v.width == w / 2 && v.height == h,
{
    Viewport { x: w / 2, y: 0, width: w / 2, height: h }
}

/// The two half-window columns partition the window's width: they have equal
/// widths, the secondary column starts exactly where the primary column's
/// width ends, both fit inside the window, and the only width not covered is
/// the single remainder pixel of an odd width (zero for an even width).
///
/// Stated of the half-window columns `[0, w/2)` and `[w/2, 2*(w/2))`: the
/// primary rectangle itself is drawn shifted right by `PRIMARY_X_OFFSET`,
/// which moves its right edge past the secondary's left edge whenever the
/// window is wider than the offset.
/// Whether two viewports, taken as half-open pixel rectangles, share a pixel.
pub open spec fn spec_viewports_overlap(a: Viewport, b: Viewport) -> bool {
    &&& a.x < b.x + b.width && b.x < a.x + a.width
    &&& a.y < b.y + b.height && b.y < a.y + a.height
}

/// The primary viewport's fixed offset shifts its rectangle into the
/// secondary's half: the two rectangles as drawn share pixels exactly when
/// the window is at least 22 pixels wide (so the primary's right edge,
/// `PRIMARY_X_OFFSET + w / 2`, passes the secondary's left edge within the
/// covered width `2 * (w / 2)`) and at least one pixel tall.
pub proof fn lemma_offset_overlap_characterized(w: u32, h: u32)
    ensures
        spec_viewports_overlap(spec_primary_viewport(w, h), spec_secondary_viewport(w, h)) <==> (w
            >= 22 && h >= 1),
{
    assert(w == 2 * (w / 2) + w % 2);
}

pub proof fn lemma_halves_partition_width(w: u32, h: u32)
    ensures
        spec_primary_viewport(w, h).width == spec_secondary_viewport(w, h).width,
        spec_secondary_viewport(w, h).x == spec_primary_viewport(w, h).width,
        spec_primary_viewport(w, h).width + spec_secondary_viewport(w, h).width <= w,
        w - (spec_primary_viewport(w, h).width + spec_secondary_viewport(w, h).width) == w % 2,
        spec_secondary_viewport(w, h).x + spec_secondary_viewport(w, h).width <= w,
        spec_primary_viewport(w, h).height == h && spec_secondary_viewport(w, h).height == h,
{
    assert(w == 2 * (w / 2) + w % 2);
}

} // verus!
