//! Pointer hover router: a two-state machine per tracked object. A
//! hover-enter on the object swaps its material to the palette's hover entry
//! and moves it to `Hovered`; a hover-leave swaps back to the idle entry and
//! moves it to `Idle`. Events for any other target are ignored. The router is
//! camera-agnostic: it only consumes the resolved target identity, so it
//! behaves identically whichever viewport the pointer is in.

use vstd::prelude::*;
use crate::layers::LayerMask;
use crate::resources::{MaterialHandle, Materials, MeshHandle};

verus! {

/// Hover state of a tracked object.
#[derive(Clone, Copy, PartialEq, Eq, Structural, Debug)]
pub enum HoverState {
    Idle,
    Hovered,
}

/// A hover notification from the picking collaborator, carrying the identity
/// of the targeted renderable object.
#[derive(Clone, Copy, PartialEq, Eq, Structural, Debug)]
pub enum HoverEvent {
    Enter { target: u64 },
    Leave { target: u64 },
}

/// The identity a hover event targets.
pub open spec fn spec_hover_target(ev: HoverEvent) -> u64 {
    match ev {
        HoverEvent::Enter { target } => target,
        HoverEvent::Leave { target } => target,
    }
}

/// The single interactive renderable object: its mesh, its layer mask, its
/// currently displayed material, and its hover state.
#[derive(Clone, Copy, PartialEq, Eq, Structural, Debug)]
pub struct SceneObject {
    /// Identity by which the picking collaborator refers to the object.
    pub id: u64,
    pub mesh: MeshHandle,
    pub layers: LayerMask,
    pub material: MaterialHandle,
    pub hover: HoverState,
}

/// The object after one hover event is routed: an enter on the object makes
/// it `Hovered` with the palette's hover (red) material, a leave makes it
/// `Idle` with the idle (blue) material, and any event targeting another
/// identity leaves it unchanged.
pub open spec fn spec_route_hover(obj: SceneObject, palette: Materials, ev: HoverEvent) -> SceneObject {
    if spec_hover_target(ev) != obj.id {
        obj
    } else {
        match ev {
            HoverEvent::Enter { .. } => SceneObject {
                material: palette.red,
                hover: HoverState::Hovered,
                ..obj
            },
            HoverEvent::Leave { .. } => SceneObject {
                material: palette.blue,
                hover: HoverState::Idle,
                ..obj
            },
        }
    }
}

/// Routes one hover event to the tracked object.
pub fn route_hover(obj: &mut SceneObject, palette: Materials, ev: HoverEvent)
    ensures
        *final(obj) == spec_route_hover(*old(obj), palette, ev),
{
    match ev {
        HoverEvent::Enter { target } => {
            if target == obj.id {
                obj.material = palette.red;
                obj.hover = HoverState::Hovered;
            }
        },
        HoverEvent::Leave { target } => {
            if target == obj.id {
                obj.material = palette.blue;
                obj.hover = HoverState::Idle;
            }
        },
    }
}

/// Law: the event sequence [enter, leave, enter] on the tracked object ends
/// with the object `Hovered` and displaying the hover material.
pub proof fn lemma_enter_leave_enter(obj: SceneObject, palette: Materials)
    ensures
        ({
            let enter = HoverEvent::Enter { target: obj.id };
            let leave = HoverEvent::Leave { target: obj.id };
            let end = spec_route_hover(
                spec_route_hover(spec_route_hover(obj, palette, enter), palette, leave),
                palette,
                enter,
            );
            end.hover == HoverState::Hovered && end.material == palette.red
        }),
{
}

/// Law: a hover event whose target is not the tracked object leaves the
/// object entirely unchanged.
pub proof fn lemma_untracked_target_ignored(obj: SceneObject, palette: Materials, ev: HoverEvent)
    requires
        spec_hover_target(ev) != obj.id,
    ensures
        spec_route_hover(obj, palette, ev) == obj,
{
}

/// Law: from the idle state with the idle material, enter followed by leave
/// returns the object exactly to where it started.
pub proof fn lemma_enter_then_leave_restores_idle(obj: SceneObject, palette: Materials)
    requires
        obj.hover == HoverState::Idle,
        obj.material == palette.blue,
    ensures
        ({
            let enter = HoverEvent::Enter { target: obj.id };
            let leave = HoverEvent::Leave { target: obj.id };
            spec_route_hover(spec_route_hover(obj, palette, enter), palette, leave) == obj
        }),
{
}

} // verus!
