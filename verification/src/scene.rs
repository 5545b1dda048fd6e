//! Scene state: the two cameras, the tracked object, and the shared
//! resources, together with bootstrap, the resize pipeline, and the hover
//! pipeline. The scene's invariant — exactly one primary and one secondary
//! camera, each with the viewport the current window size dictates — is
//! established by bootstrap and preserved by every frame.

use vstd::prelude::*;
use crate::hover::{
    spec_route_hover, route_hover, HoverEvent, HoverState, SceneObject,
};
use crate::layers::{LayerMask, PRIMARY_LAYER, SECONDARY_LAYER};
use crate::layout::{
    primary_viewport, secondary_viewport, spec_primary_viewport, spec_secondary_viewport,
    lemma_halves_partition_width, Viewport,
};
use crate::resources::{Materials, Square};

verus! {

/// Clear color shared by both cameras (dark gray), packed as RGBA bytes.
pub const CLEAR_COLOR_RGBA: u32 = 0xA9A9A9FF;

/// The two fixed camera roles: left and right halves of the window.
#[derive(Clone, Copy, PartialEq, Eq, Structural, Debug)]
pub enum CameraRole {
    Primary,
    Secondary,
}

/// A camera record: its role, its viewport rectangle, the render layers it
/// draws, its compositing order, and its clear color.
#[derive(Clone, Copy, PartialEq, Eq, Structural, Debug)]
pub struct Camera {
    pub role: CameraRole,
    pub viewport: Viewport,
    pub layers: LayerMask,
    pub order: u32,
    pub clear_color: u32,
}

/// A window-resize notification: the resized window's identity and its new
/// physical pixel size.
#[derive(Clone, Copy, PartialEq, Eq, Structural, Debug)]
pub struct ResizeEvent {
    pub window: u64,
    pub width: u32,
    pub height: u32,
}

/// A violated scene invariant, surfaced to the host's error boundary rather
/// than swallowed.
#[derive(Clone, Copy, PartialEq, Eq, Structural, Debug)]
pub enum SceneError {
    /// Exactly one camera of a required role could not be located.
    CameraNotUnique,
}

/// The mask of the primary camera: exactly the primary layer.
pub open spec fn spec_primary_mask() -> LayerMask {
    LayerMask { bits: 1u32 << PRIMARY_LAYER }
}

/// The mask of the secondary camera: exactly the secondary layer.
pub open spec fn spec_secondary_mask() -> LayerMask {
    LayerMask { bits: 1u32 << SECONDARY_LAYER }
}

/// The mask of the tracked object: both layers, so both cameras draw it.
pub open spec fn spec_both_layers() -> LayerMask {
    LayerMask { bits: (1u32 << PRIMARY_LAYER) | (1u32 << SECONDARY_LAYER) }
}

/// The primary camera as bootstrap creates it for window size `(w, h)` and as
/// every resize re-establishes it.
pub open spec fn spec_primary_camera(w: u32, h: u32) -> Camera {
    Camera {
        role: CameraRole::Primary,
        viewport: spec_primary_viewport(w, h),
        layers: spec_primary_mask(),
        order: 0,
        clear_color: CLEAR_COLOR_RGBA,
    }
}

/// The secondary camera as bootstrap creates it for window size `(w, h)` and
/// as every resize re-establishes it.
pub open spec fn spec_secondary_camera(w: u32, h: u32) -> Camera {
    Camera {
        role: CameraRole::Secondary,
        viewport: spec_secondary_viewport(w, h),
        layers: spec_secondary_mask(),
        order: 1,
        clear_color: CLEAR_COLOR_RGBA,
    }
}

/// Whether a camera draws an object: their layer masks intersect.
pub open spec fn spec_camera_draws(cam: Camera, obj: SceneObject) -> bool {
    cam.layers.spec_intersects(obj.layers)
}

/// How many cameras of a sequence carry the given role.
pub open spec fn role_count(cams: Seq<Camera>, role: CameraRole) -> nat
    decreases cams.len(),
{
    if cams.len() == 0 {
        0
    } else {
        role_count(cams.drop_last(), role) + (if cams.last().role == role {
            1nat
        } else {
            0nat
        })
    }
}

/// One camera after a resize to window size `(w, h)`: its viewport is
/// recomputed from the raw window size according to its role; everything else
/// is kept.
pub open spec fn retarget_camera(cam: Camera, w: u32, h: u32) -> Camera {
    match cam.role {
        CameraRole::Primary => Camera { viewport: spec_primary_viewport(w, h), ..cam },
        CameraRole::Secondary => Camera { viewport: spec_secondary_viewport(w, h), ..cam },
    }
}

/// All cameras after a resize to window size `(w, h)`.
pub open spec fn retarget_cameras(cams: Seq<Camera>, w: u32, h: u32) -> Seq<Camera> {
    Seq::new(cams.len(), |i: int| retarget_camera(cams[i], w, h))
}

/// The mathematical state of a scene.
#[verifier::ext_equal]
pub ghost struct SceneView {
    pub window: u64,
    pub width: u32,
    pub height: u32,
    pub cameras: Seq<Camera>,
    pub object: SceneObject,
    pub palette: Materials,
    pub square: Square,
}

impl SceneView {
    /// The scene invariant: exactly the two role cameras, in draw order, each
    /// with the viewport, mask, order and clear color its role dictates for
    /// the current window size; the object tagged for both layers, carrying
    /// the square's mesh, and displaying the material its hover state
    /// dictates.
    pub open spec fn wf(self) -> bool {
        &&& self.cameras.len() == 2
        &&& self.cameras[0] == spec_primary_camera(self.width, self.height)
        &&& self.cameras[1] == spec_secondary_camera(self.width, self.height)
        &&& self.object.layers == spec_both_layers()
        &&& self.object.mesh == self.square.mesh
        &&& (self.object.hover == HoverState::Hovered ==> self.object.material == self.palette.red)
        &&& (self.object.hover == HoverState::Idle ==> self.object.material == self.palette.blue)
    }
}

/// The scene: the tracked window's identity and last observed size, the two
/// cameras, the tracked object, and the shared resources.
pub struct Scene {
    pub window: u64,
    pub width: u32,
    pub height: u32,
    pub cameras: Vec<Camera>,
    pub object: SceneObject,
    pub palette: Materials,
    pub square: Square,
}

impl View for Scene {
    type V = SceneView;

    open spec fn view(&self) -> SceneView {
        SceneView {
            window: self.window,
            width: self.width,
            height: self.height,
            cameras: self.cameras@,
            object: self.object,
            palette: self.palette,
            square: self.square,
        }
    }
}

/// The scene bootstrap builds for window `window` of size `(width, height)`,
/// palette `palette`, mesh resource `square` and object identity `object_id`.
pub open spec fn spec_bootstrap(
    window: u64,
    width: u32,
    height: u32,
    palette: Materials,
    square: Square,
    object_id: u64,
) -> SceneView {
    SceneView {
        window,
        width,
        height,
        cameras: seq![spec_primary_camera(width, height), spec_secondary_camera(width, height)],
        object: SceneObject {
            id: object_id,
            mesh: square.mesh,
            layers: spec_both_layers(),
            material: palette.blue,
            hover: HoverState::Idle,
        },
        palette,
        square,
    }
}

/// The scene after one resize event. `Some` is the resulting scene: an event
/// for another window is ignored; a matching event recomputes both viewports
/// from the new size and records it. `None` is the fatal case: exactly one
/// camera of each role could not be located, and the scene is left untouched.
pub open spec fn spec_apply_resize(v: SceneView, ev: ResizeEvent) -> Option<SceneView> {
    if ev.window != v.window {
        Some(v)
    } else if role_count(v.cameras, CameraRole::Primary) == 1 && role_count(
        v.cameras,
        CameraRole::Secondary,
    ) == 1 {
        Some(
            SceneView {
                window: v.window,
                width: ev.width,
                height: ev.height,
                cameras: retarget_cameras(v.cameras, ev.width, ev.height),
                object: v.object,
                palette: v.palette,
                square: v.square,
            },
        )
    } else {
        None
    }
}

/// The scene after one hover event: the tracked object is rerouted, all else
/// is kept.
pub open spec fn spec_apply_hover(v: SceneView, ev: HoverEvent) -> SceneView {
    SceneView {
        window: v.window,
        width: v.width,
        height: v.height,
        cameras: v.cameras,
        object: spec_route_hover(v.object, v.palette, ev),
        palette: v.palette,
        square: v.square,
    }
}

/// The scene and success flag after a frame's resize queue is drained in
/// arrival order. The drain stops at the first fatal event, leaving the
/// effects of the events before it.
pub open spec fn spec_drain_resizes(v: SceneView, evs: Seq<ResizeEvent>) -> (SceneView, bool)
    decreases evs.len(),
{
    if evs.len() == 0 {
        (v, true)
    } else {
        match spec_apply_resize(v, evs[0]) {
            Some(v1) => spec_drain_resizes(v1, evs.skip(1)),
            None => (v, false),
        }
    }
}

/// The scene after a frame's hover queue is drained in arrival order.
pub open spec fn spec_drain_hovers(v: SceneView, evs: Seq<HoverEvent>) -> SceneView
    decreases evs.len(),
{
    if evs.len() == 0 {
        v
    } else {
        spec_drain_hovers(spec_apply_hover(v, evs[0]), evs.skip(1))
    }
}

/// Counts the cameras that carry the given role.
pub fn count_role(cams: &Vec<Camera>, role: CameraRole) -> (c: usize)
    ensures
        c == role_count(cams@, role),
{
    let n = cams.len();
    let mut count: usize = 0;
    let mut j: usize = 0;
    while j < n
        invariant
            n == cams@.len(),
            j <= n,
            count <= j,
            count == role_count(cams@.take(j as int), role),
        decreases n - j,
    {
        proof {
            lemma_role_count_take_step(cams@, role, j as int);
        }
        if cams[j].role == role {
            count = count + 1;
        }
        j = j + 1;
    }
    proof {
        assert(cams@.take(n as int) =~= cams@);
    }
    count
}

proof fn lemma_role_count_take_step(cams: Seq<Camera>, role: CameraRole, j: int)
    requires
        0 <= j < cams.len(),
    ensures
        role_count(cams.take(j + 1), role) == role_count(cams.take(j), role) + (if cams[j].role
            == role {
            1nat
        } else {
            0nat
        }),
{
    let s1 = cams.take(j + 1);
    assert(s1.drop_last() =~= cams.take(j));
    assert(s1.last() == cams[j]);
}

/// Checks whether a camera draws an object: their layer masks intersect.
pub fn camera_draws(cam: &Camera, obj: &SceneObject) -> (b: bool)
    ensures
        b == spec_camera_draws(*cam, *obj),
{
    cam.layers.intersects(obj.layers)
}

/// Law: a well-formed scene holds exactly one primary and exactly one
/// secondary camera.
pub proof fn lemma_wf_unique_roles(v: SceneView)
    requires
        v.wf(),
    ensures
        role_count(v.cameras, CameraRole::Primary) == 1,
        role_count(v.cameras, CameraRole::Secondary) == 1,
{
    let tail = v.cameras.drop_last();
    assert(tail.len() == 1);
    assert(tail.last() == v.cameras[0]);
    assert(tail.drop_last().len() == 0);
    assert(role_count(tail.drop_last(), CameraRole::Primary) == 0);
    assert(role_count(tail.drop_last(), CameraRole::Secondary) == 0);
    assert(role_count(tail, CameraRole::Primary) == 1);
    assert(role_count(tail, CameraRole::Secondary) == 0);
    assert(v.cameras.last() == v.cameras[1]);
    assert(role_count(v.cameras, CameraRole::Primary) == role_count(tail, CameraRole::Primary));
    assert(role_count(v.cameras, CameraRole::Secondary) == role_count(tail, CameraRole::Secondary)
        + 1);
}

/// Retargeting keeps every camera's role, so it keeps every role count.
proof fn lemma_retarget_preserves_role_count(cams: Seq<Camera>, w: u32, h: u32, role: CameraRole)
    ensures
        role_count(retarget_cameras(cams, w, h), role) == role_count(cams, role),
    decreases cams.len(),
{
    let r = retarget_cameras(cams, w, h);
    if cams.len() == 0 {
        assert(r.len() == 0);
    } else {
        lemma_retarget_preserves_role_count(cams.drop_last(), w, h, role);
        assert(r.drop_last() =~= retarget_cameras(cams.drop_last(), w, h));
        assert(r.last() == retarget_camera(cams.last(), w, h));
        assert(retarget_camera(cams.last(), w, h).role == cams.last().role);
    }
}

/// Law: on a well-formed scene a resize never hits the fatal case, and the
/// scene it produces is well-formed again — each camera's viewport is the one
/// its role dictates for the new size.
pub proof fn lemma_resize_preserves_wf(v: SceneView, ev: ResizeEvent)
    requires
        v.wf(),
    ensures
        (match spec_apply_resize(v, ev) {
            Some(v2) => v2.wf(),
            None => false,
        }),
{
    lemma_wf_unique_roles(v);
    if ev.window == v.window {
        let w = ev.width;
        let h = ev.height;
        let r = retarget_cameras(v.cameras, w, h);
        assert(r[0] == retarget_camera(v.cameras[0], w, h));
        assert(r[1] == retarget_camera(v.cameras[1], w, h));
    }
}

/// Law: routing a hover event through a well-formed scene leaves it
/// well-formed — in particular the displayed material always matches the
/// hover state.
pub proof fn lemma_hover_preserves_wf(v: SceneView, ev: HoverEvent)
    requires
        v.wf(),
    ensures
        spec_apply_hover(v, ev).wf(),
{
}

/// Law: resizing is idempotent. Applying the same resize event a second time
/// yields exactly the state the first application produced; there is no
/// drift, because each application recomputes from the raw window size.
pub proof fn lemma_resize_idempotent(v: SceneView, ev: ResizeEvent)
    ensures
        (match spec_apply_resize(v, ev) {
            Some(v1) => spec_apply_resize(v1, ev) == Some(v1),
            None => spec_apply_resize(v, ev) is None,
        }),
{
    if ev.window == v.window && role_count(v.cameras, CameraRole::Primary) == 1 && role_count(
        v.cameras,
        CameraRole::Secondary,
    ) == 1 {
        let w = ev.width;
        let h = ev.height;
        lemma_retarget_preserves_role_count(v.cameras, w, h, CameraRole::Primary);
        lemma_retarget_preserves_role_count(v.cameras, w, h, CameraRole::Secondary);
        let once = retarget_cameras(v.cameras, w, h);
        assert forall|k: int| 0 <= k < once.len() implies retarget_cameras(once, w, h)[k] == once[k]
        by {
            assert(once[k] == retarget_camera(v.cameras[k], w, h));
            assert(retarget_camera(v.cameras[k], w, h).role == v.cameras[k].role);
        }
        assert(retarget_cameras(once, w, h) =~= once);
        let v1 = spec_apply_resize(v, ev)->Some_0;
        let v2 = spec_apply_resize(v1, ev)->Some_0;
        assert(v2 =~= v1);
    }
}

/// Law: draining a whole resize queue on a well-formed scene succeeds and
/// leaves the scene well-formed.
pub proof fn lemma_drain_resizes_preserves_wf(v: SceneView, evs: Seq<ResizeEvent>)
    requires
        v.wf(),
    ensures
        spec_drain_resizes(v, evs).0.wf(),
        spec_drain_resizes(v, evs).1,
    decreases evs.len(),
{
    if evs.len() > 0 {
        lemma_resize_preserves_wf(v, evs[0]);
        lemma_drain_resizes_preserves_wf(spec_apply_resize(v, evs[0])->Some_0, evs.skip(1));
    }
}

/// Law: draining a whole hover queue leaves a well-formed scene well-formed.
pub proof fn lemma_drain_hovers_preserves_wf(v: SceneView, evs: Seq<HoverEvent>)
    requires
        v.wf(),
    ensures
        spec_drain_hovers(v, evs).wf(),
    decreases evs.len(),
{
    if evs.len() > 0 {
        lemma_hover_preserves_wf(v, evs[0]);
        lemma_drain_hovers_preserves_wf(spec_apply_hover(v, evs[0]), evs.skip(1));
    }
}

/// Law: what holds of every well-formed scene — so, by the preservation laws
/// above, at every point after bootstrap. Exactly one camera of each role
/// exists; the two viewports have equal widths; the secondary's left edge
/// sits exactly where the primary's width ends, so the two half-window
/// columns abut with no overlap; the only window width they leave uncovered
/// is the remainder pixel of an odd width; and both cameras draw the tracked
/// object.
pub proof fn lemma_scene_invariant(v: SceneView)
    requires
        v.wf(),
    ensures
        role_count(v.cameras, CameraRole::Primary) == 1,
        role_count(v.cameras, CameraRole::Secondary) == 1,
        v.cameras[0].viewport.width == v.cameras[1].viewport.width,
        v.cameras[1].viewport.x == v.cameras[0].viewport.width,
        v.cameras[0].viewport.width + v.cameras[1].viewport.width + v.width % 2 == v.width,
        v.cameras[0].viewport.height == v.height && v.cameras[1].viewport.height == v.height,
        spec_camera_draws(v.cameras[0], v.object),
        spec_camera_draws(v.cameras[1], v.object),
{
    lemma_wf_unique_roles(v);
    lemma_halves_partition_width(v.width, v.height);
    assert((1u32 << 0u32) & ((1u32 << 0u32) | (1u32 << 1u32)) != 0) by (bit_vector);
    assert((1u32 << 1u32) & ((1u32 << 0u32) | (1u32 << 1u32)) != 0) by (bit_vector);
}

impl Scene {
    /// One-time scene construction. The palette and the mesh resource are
    /// built before this runs; the window with its physical size exists. Both
    /// cameras are spawned with viewports computed from that size, and the
    /// tracked object is spawned on both layers with the idle material.
    pub fn bootstrap(
        window: u64,
        width: u32,
        height: u32,
        palette: Materials,
        square: Square,
        object_id: u64,
    ) -> (s: Scene)
        ensures
            s@ == spec_bootstrap(window, width, height, palette, square, object_id),
            s@.wf(),
    {
        let primary = Camera {
            role: CameraRole::Primary,
            viewport: primary_viewport(width, height),
            layers: LayerMask::single(PRIMARY_LAYER),
            order: 0,
            clear_color: CLEAR_COLOR_RGBA,
        };
        let secondary = Camera {
            role: CameraRole::Secondary,
            viewport: secondary_viewport(width, height),
            layers: LayerMask::single(SECONDARY_LAYER),
            order: 1,
            clear_color: CLEAR_COLOR_RGBA,
        };
        let mut cameras: Vec<Camera> = Vec::new();
        cameras.push(primary);
        cameras.push(secondary);
        let object = SceneObject {
            id: object_id,
            mesh: square.mesh,
            layers: LayerMask::single(PRIMARY_LAYER).union(LayerMask::single(SECONDARY_LAYER)),
            material: palette.blue,
            hover: HoverState::Idle,
        };
        let s = Scene { window, width, height, cameras, object, palette, square };
        proof {
            assert(s@.cameras =~= spec_bootstrap(
                window,
                width,
                height,
                palette,
                square,
                object_id,
            ).cameras);
            assert(s@ =~= spec_bootstrap(window, width, height, palette, square, object_id));
        }
        s
    }

    /// Applies one window-resize notification. An event for a window other
    /// than the tracked one is ignored. Otherwise both viewports are
    /// recomputed in place from the raw new size; if exactly one camera of
    /// either role cannot be located, the operation fails fast without
    /// touching the scene.
    pub fn apply_resize(&mut self, ev: ResizeEvent) -> (r: Result<(), SceneError>)
        ensures
            (match spec_apply_resize(old(self)@, ev) {
                Some(v) => r == Ok::<(), SceneError>(()) && final(self)@ == v,
                None => r == Err::<(), SceneError>(SceneError::CameraNotUnique) && final(self)@
                    == old(self)@,
            }),
    {
        if ev.window != self.window {
            return Ok(());
        }
        let primaries = count_role(&self.cameras, CameraRole::Primary);
        let secondaries = count_role(&self.cameras, CameraRole::Secondary);
        if primaries != 1 || secondaries != 1 {
            return Err(SceneError::CameraNotUnique);
        }
        let w = ev.width;
        let h = ev.height;
        let n = self.cameras.len();
        let mut new_cams: Vec<Camera> = Vec::new();
        let mut j: usize = 0;
        while j < n
            invariant
                *self == *old(self),
                n == self.cameras@.len(),
                j <= n,
                new_cams@.len() == j as int,
                forall|k: int|
                    0 <= k < j ==> new_cams@[k] == retarget_camera(self.cameras@[k], w, h),
            decreases n - j,
        {
            let cam = self.cameras[j];
            let vp = match cam.role {
                CameraRole::Primary => primary_viewport(w, h),
                CameraRole::Secondary => secondary_viewport(w, h),
            };
            new_cams.push(
                Camera {
                    role: cam.role,
                    viewport: vp,
                    layers: cam.layers,
                    order: cam.order,
                    clear_color: cam.clear_color,
                },
            );
            j = j + 1;
        }
        proof {
            assert(new_cams@ =~= retarget_cameras(self.cameras@, w, h));
        }
        self.cameras = new_cams;
        self.width = w;
        self.height = h;
        proof {
            assert(self@ =~= (match spec_apply_resize(old(self)@, ev) {
                Some(v) => v,
                None => old(self)@,
            }));
        }
        Ok(())
    }

    /// Routes one hover notification to the tracked object.
    pub fn apply_hover(&mut self, ev: HoverEvent)
        ensures
            final(self)@ == spec_apply_hover(old(self)@, ev),
    {
        let palette = self.palette;
        route_hover(&mut self.object, palette, ev);
        proof {
            assert(self@ =~= spec_apply_hover(old(self)@, ev));
        }
    }

    /// Drains one frame's resize queue in arrival order, stopping at the
    /// first fatal event.
    pub fn drain_resizes(&mut self, events: &Vec<ResizeEvent>) -> (r: Result<(), SceneError>)
        ensures
            final(self)@ == spec_drain_resizes(old(self)@, events@).0,
            r == (if spec_drain_resizes(old(self)@, events@).1 {
                Ok::<(), SceneError>(())
            } else {
                Err::<(), SceneError>(SceneError::CameraNotUnique)
            }),
    {
        let n = events.len();
        let mut i: usize = 0;
        proof {
            assert(events@.skip(0) =~= events@);
        }
        while i < n
            invariant
                n == events@.len(),
                i <= n,
                spec_drain_resizes(old(self)@, events@) == spec_drain_resizes(
                    self@,
                    events@.skip(i as int),
                ),
            decreases n - i,
        {
            proof {
                assert(events@.skip(i as int)[0] == events@[i as int]);
                assert(events@.skip(i as int).skip(1) =~= events@.skip(i as int + 1));
            }
            let ev = events[i];
            let step = self.apply_resize(ev);
            if step.is_err() {
                return Err(SceneError::CameraNotUnique);
            }
            i = i + 1;
        }
        proof {
            assert(events@.skip(n as int).len() == 0);
        }
        Ok(())
    }

    /// Drains one frame's hover queue in arrival order.
    pub fn drain_hovers(&mut self, events: &Vec<HoverEvent>)
        ensures
            final(self)@ == spec_drain_hovers(old(self)@, events@),
    {
        let n = events.len();
        let mut i: usize = 0;
        proof {
            assert(events@.skip(0) =~= events@);
        }
        while i < n
            invariant
                n == events@.len(),
                i <= n,
                spec_drain_hovers(old(self)@, events@) == spec_drain_hovers(
                    self@,
                    events@.skip(i as int),
                ),
            decreases n - i,
        {
            proof {
                assert(events@.skip(i as int)[0] == events@[i as int]);
                assert(events@.skip(i as int).skip(1) =~= events@.skip(i as int + 1));
            }
            let ev = events[i];
            self.apply_hover(ev);
            i = i + 1;
        }
        proof {
            assert(events@.skip(n as int).len() == 0);
        }
    }

    /// One frame of the update pass: drain the resize queue, then the hover
    /// queue. A fatal resize error is surfaced after the hover queue still
    /// ran, mirroring the per-system error boundary of the host.
    pub fn frame(&mut self, resizes: &Vec<ResizeEvent>, hovers: &Vec<HoverEvent>) -> (r: Result<
        (),
        SceneError,
    >)
        ensures
            final(self)@ == spec_drain_hovers(
                spec_drain_resizes(old(self)@, resizes@).0,
                hovers@,
            ),
            r == (if spec_drain_resizes(old(self)@, resizes@).1 {
                Ok::<(), SceneError>(())
            } else {
                Err::<(), SceneError>(SceneError::CameraNotUnique)
            }),
    {
        let r = self.drain_resizes(resizes);
        self.drain_hovers(hovers);
        r
    }
}

} // verus!
