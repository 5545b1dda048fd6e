use dual_view::diag::RepeatTimer;
use dual_view::hover::{HoverEvent, HoverState, SceneObject};
use dual_view::layers::{LayerMask, PRIMARY_LAYER, SECONDARY_LAYER};
use dual_view::layout::{primary_viewport, secondary_viewport, Viewport, PRIMARY_X_OFFSET};
use dual_view::resources::{MaterialHandle, Materials, MeshHandle, Square};
use dual_view::scene::{
    camera_draws, count_role, Camera, CameraRole, ResizeEvent, Scene, SceneError,
};

fn palette() -> Materials {
    Materials::new(
        MaterialHandle(1),
        MaterialHandle(2),
        MaterialHandle(3),
        MaterialHandle(4),
    )
}

fn scene() -> Scene {
    Scene::bootstrap(7, 1000, 600, palette(), Square::new(MeshHandle(9)), 42)
}

#[test]
fn primary_viewport_even_width() {
    let v = primary_viewport(1000, 600);
    assert_eq!(
        v,
        Viewport {
            x: 20,
            y: 0,
            width: 500,
            height: 600
        }
    );
}

#[test]
fn primary_viewport_odd_width() {
    let v = primary_viewport(801, 600);
    assert_eq!(v.x, PRIMARY_X_OFFSET);
    assert_eq!(v.y, 0);
    assert_eq!(v.width, 400);
    assert_eq!(v.height, 600);
}

#[test]
fn secondary_viewport_even_width() {
    let v = secondary_viewport(1000, 600);
    assert_eq!(
        v,
        Viewport {
            x: 500,
            y: 0,
            width: 500,
            height: 600
        }
    );
}

#[test]
fn secondary_viewport_odd_width() {
    let v = secondary_viewport(801, 600);
    assert_eq!(
        v,
        Viewport {
            x: 400,
            y: 0,
            width: 400,
            height: 600
        }
    );
}

#[test]
fn viewport_of_zero_window() {
    assert_eq!(primary_viewport(0, 0).width, 0);
    assert_eq!(primary_viewport(0, 0).height, 0);
    assert_eq!(secondary_viewport(0, 0).x, 0);
    assert_eq!(secondary_viewport(1, 0).width, 0);
}

#[test]
fn viewport_halves_partition_concretely() {
    for w in [0u32, 1, 2, 21, 22, 801, 1000, u32::MAX] {
        let p = primary_viewport(w, 600);
        let s = secondary_viewport(w, 600);
        assert_eq!(p.width, s.width);
        assert_eq!(s.x, p.width);
        assert_eq!(p.width + s.width + w % 2, w);
    }
}

#[test]
fn bootstrap_builds_both_cameras() {
    let s = scene();
    assert_eq!(s.cameras.len(), 2);
    assert_eq!(s.cameras[0].role, CameraRole::Primary);
    assert_eq!(s.cameras[1].role, CameraRole::Secondary);
    assert_eq!(
        s.cameras[0].viewport,
        Viewport {
            x: 20,
            y: 0,
            width: 500,
            height: 600
        }
    );
    assert_eq!(
        s.cameras[1].viewport,
        Viewport {
            x: 500,
            y: 0,
            width: 500,
            height: 600
        }
    );
    assert!(s.cameras[0].order < s.cameras[1].order);
    assert_eq!(s.cameras[0].layers, LayerMask { bits: 0b01 });
    assert_eq!(s.cameras[1].layers, LayerMask { bits: 0b10 });
    assert_eq!(s.object.layers, LayerMask { bits: 0b11 });
    assert_eq!(s.object.material, MaterialHandle(4));
    assert_eq!(s.object.hover, HoverState::Idle);
    assert_eq!(s.object.mesh, MeshHandle(9));
}

#[test]
fn bootstrap_cameras_draw_the_object() {
    let s = scene();
    assert!(camera_draws(&s.cameras[0], &s.object));
    assert!(camera_draws(&s.cameras[1], &s.object));
    assert_eq!(count_role(&s.cameras, CameraRole::Primary), 1);
    assert_eq!(count_role(&s.cameras, CameraRole::Secondary), 1);
}

#[test]
fn resize_to_odd_width() {
    let mut s = scene();
    let r = s.apply_resize(ResizeEvent {
        window: 7,
        width: 801,
        height: 600,
    });
    assert_eq!(r, Ok(()));
    assert_eq!(s.cameras[0].viewport.width, 400);
    assert_eq!(s.cameras[0].viewport.height, 600);
    assert_eq!(s.cameras[0].viewport.x, 20);
    assert_eq!(s.cameras[1].viewport.width, 400);
    assert_eq!(s.cameras[1].viewport.height, 600);
    assert_eq!(s.cameras[1].viewport.x, 400);
    assert_eq!((s.width, s.height), (801, 600));
}

#[test]
fn resize_twice_is_idempotent() {
    let ev = ResizeEvent {
        window: 7,
        width: 333,
        height: 222,
    };
    let mut s = scene();
    assert_eq!(s.apply_resize(ev), Ok(()));
    let cameras_once = s.cameras.clone();
    let size_once = (s.width, s.height);
    let object_once = s.object;
    assert_eq!(s.apply_resize(ev), Ok(()));
    assert_eq!(s.cameras, cameras_once);
    assert_eq!((s.width, s.height), size_once);
    assert_eq!(s.object, object_once);
}

#[test]
fn resize_for_other_window_is_ignored() {
    let mut s = scene();
    let r = s.apply_resize(ResizeEvent {
        window: 8,
        width: 10,
        height: 10,
    });
    assert_eq!(r, Ok(()));
    assert_eq!((s.width, s.height), (1000, 600));
    assert_eq!(s.cameras[0].viewport.width, 500);
}

#[test]
fn resize_without_a_primary_camera_fails() {
    let mut s = scene();
    s.cameras.remove(0);
    let r = s.apply_resize(ResizeEvent {
        window: 7,
        width: 640,
        height: 480,
    });
    assert_eq!(r, Err(SceneError::CameraNotUnique));
    assert_eq!((s.width, s.height), (1000, 600));
}

#[test]
fn resize_with_two_primary_cameras_fails() {
    let mut s = scene();
    let duplicate = s.cameras[0];
    s.cameras.push(duplicate);
    let r = s.apply_resize(ResizeEvent {
        window: 7,
        width: 640,
        height: 480,
    });
    assert_eq!(r, Err(SceneError::CameraNotUnique));
    assert_eq!(s.cameras.len(), 3);
    assert_eq!(s.cameras[0].viewport.width, 500);
}

#[test]
fn hover_enter_leave_enter_ends_hovered() {
    let mut s = scene();
    s.apply_hover(HoverEvent::Enter { target: 42 });
    s.apply_hover(HoverEvent::Leave { target: 42 });
    s.apply_hover(HoverEvent::Enter { target: 42 });
    assert_eq!(s.object.hover, HoverState::Hovered);
    assert_eq!(s.object.material, MaterialHandle(1));
}

#[test]
fn hover_on_untracked_identity_is_ignored() {
    let mut s = scene();
    s.apply_hover(HoverEvent::Enter { target: 43 });
    assert_eq!(s.object.hover, HoverState::Idle);
    assert_eq!(s.object.material, MaterialHandle(4));
    s.apply_hover(HoverEvent::Leave { target: 0 });
    assert_eq!(s.object.hover, HoverState::Idle);
    assert_eq!(s.object.material, MaterialHandle(4));
}

#[test]
fn hover_enter_then_leave_restores_idle() {
    let mut s = scene();
    assert_eq!(s.object.material, MaterialHandle(4));
    s.apply_hover(HoverEvent::Enter { target: 42 });
    assert_eq!(s.object.hover, HoverState::Hovered);
    assert_eq!(s.object.material, MaterialHandle(1));
    s.apply_hover(HoverEvent::Leave { target: 42 });
    assert_eq!(s.object.hover, HoverState::Idle);
    assert_eq!(s.object.material, MaterialHandle(4));
}

#[test]
fn drain_resizes_keeps_arrival_order() {
    let mut s = scene();
    let events = vec![
        ResizeEvent {
            window: 7,
            width: 300,
            height: 300,
        },
        ResizeEvent {
            window: 8,
            width: 1,
            height: 1,
        },
        ResizeEvent {
            window: 7,
            width: 801,
            height: 600,
        },
    ];
    assert_eq!(s.drain_resizes(&events), Ok(()));
    assert_eq!((s.width, s.height), (801, 600));
    assert_eq!(s.cameras[0].viewport.width, 400);
    assert_eq!(s.cameras[1].viewport.x, 400);
}

#[test]
fn frame_drains_resizes_then_hovers() {
    let mut s = scene();
    let resizes = vec![ResizeEvent {
        window: 7,
        width: 400,
        height: 200,
    }];
    let hovers = vec![
        HoverEvent::Enter { target: 42 },
        HoverEvent::Leave { target: 42 },
        HoverEvent::Enter { target: 42 },
    ];
    assert_eq!(s.frame(&resizes, &hovers), Ok(()));
    assert_eq!(s.cameras[0].viewport.width, 200);
    assert_eq!(s.object.hover, HoverState::Hovered);
    assert_eq!(s.object.material, MaterialHandle(1));
}

#[test]
fn layer_mask_operations() {
    let primary = LayerMask::single(PRIMARY_LAYER);
    let secondary = LayerMask::single(SECONDARY_LAYER);
    assert_eq!(primary.bits, 1);
    assert_eq!(secondary.bits, 2);
    let both = primary.union(secondary);
    assert_eq!(both.bits, 3);
    assert!(primary.intersects(both));
    assert!(secondary.intersects(both));
    assert!(!primary.intersects(secondary));
}

#[test]
fn repeat_timer_fires_once_per_period() {
    let mut t = RepeatTimer::new(1000);
    assert!(!t.tick(400));
    assert_eq!(t.elapsed_ms, 400);
    assert!(t.tick(600));
    assert_eq!(t.elapsed_ms, 0);
    assert!(t.tick(1500));
    assert_eq!(t.elapsed_ms, 500);
    assert!(!t.tick(499));
    assert!(t.tick(1));
}

#[test]
fn default_resources_hold_empty_handles() {
    let m = Materials::default();
    assert_eq!(m.red, MaterialHandle(0));
    assert_eq!(m.green, MaterialHandle(0));
    assert_eq!(m.yellow, MaterialHandle(0));
    assert_eq!(m.blue, MaterialHandle(0));
    let sq = Square::default();
    assert_eq!(sq.mesh, MeshHandle(0));
}

#[test]
fn hover_state_survives_a_resize() {
    let mut s = scene();
    s.apply_hover(HoverEvent::Enter { target: 42 });
    assert_eq!(
        s.apply_resize(ResizeEvent {
            window: 7,
            width: 640,
            height: 480,
        }),
        Ok(())
    );
    assert_eq!(s.object.hover, HoverState::Hovered);
    assert_eq!(s.object.material, MaterialHandle(1));
    assert_eq!(s.cameras[0].viewport.width, 320);
}

#[test]
fn resize_keeps_roles_orders_and_masks() {
    let mut s = scene();
    assert_eq!(
        s.apply_resize(ResizeEvent {
            window: 7,
            width: 50,
            height: 60,
        }),
        Ok(())
    );
    let cams: &Vec<Camera> = &s.cameras;
    assert_eq!(cams[0].role, CameraRole::Primary);
    assert_eq!(cams[1].role, CameraRole::Secondary);
    assert_eq!(cams[0].order, 0);
    assert_eq!(cams[1].order, 1);
    assert_eq!(cams[0].layers, LayerMask { bits: 0b01 });
    assert_eq!(cams[1].layers, LayerMask { bits: 0b10 });
    assert_eq!(cams[0].clear_color, cams[1].clear_color);
}

#[test]
fn object_of_a_hand_built_scene_routes_too() {
    let obj = SceneObject {
        id: 5,
        mesh: MeshHandle(1),
        layers: LayerMask { bits: 0b11 },
        material: MaterialHandle(4),
        hover: HoverState::Idle,
    };
    let mut s = Scene {
        window: 1,
        width: 100,
        height: 100,
        cameras: Vec::new(),
        object: obj,
        palette: palette(),
        square: Square::new(MeshHandle(1)),
    };
    s.apply_hover(HoverEvent::Enter { target: 5 });
    assert_eq!(s.object.hover, HoverState::Hovered);
    assert_eq!(s.object.material, MaterialHandle(1));
}
