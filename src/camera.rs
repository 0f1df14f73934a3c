//! The camera controller: the orbiting third-person behaviour, and the
//! decisions of the free top-down camera (edge-pan, rotation, zoom,
//! follow).
//!
//! Positions are in thousandths of a world unit, cursor positions and
//! window sizes in whole pixels, angles in hundredths of a degree, and
//! speed factors in thousandths.
use vstd::prelude::*;
use crate::app::{App, AppView};
use crate::entity::Entity;
use crate::states::CameraMode;

verus! {

/// Which camera strategy a configuration uses; never both at once.
#[derive(Clone, Copy, Debug, PartialEq, Eq, Hash, Structural)]
pub enum CameraStrategy {
    ThirdPerson,
    TopDown,
}

/// The orbiting behaviour attached to the camera during third-person play.
#[derive(Clone, Copy, Debug, PartialEq, Eq, Hash, Structural)]
pub struct OrbitCamera {
    pub zoom_min: i32,
    pub zoom_max: i32,
    /// Field of view, in degrees.
    pub fov: i32,
    /// Whether the orbit behaviour holds the mouse cursor captured.
    pub cursor_lock_active: bool,
}

/// The scene camera entity and the behaviours attached to it.
#[derive(Clone, Copy, Debug, PartialEq, Eq, Hash, Structural)]
pub struct SceneCamera {
    pub entity: Entity,
    pub orbit: Option<OrbitCamera>,
    /// Whether a kinematic collision body is attached.
    pub kinematic_body: bool,
}

/// Tunables of the free top-down camera.
#[derive(Clone, Copy, Debug, PartialEq, Eq, Hash, Structural)]
pub struct CameraConfig {
    /// Width of the band along each window edge that pans the camera, in
    /// pixels.
    pub edge_margin: i32,
    /// Lowest speed factor an edge-pan may use, in thousandths.
    pub speed_floor: i32,
    /// Pan speed at factor one, in thousandths of a unit per second.
    pub max_speed: i32,
    /// Rotation per pixel of drag, in hundredths of a degree.
    pub rotate_speed: i32,
    /// Height change per scroll step, in thousandths of a unit.
    pub zoom_speed: i32,
    pub min_height: i32,
    pub max_height: i32,
}

/// Tunables of the third-person camera.
#[derive(Clone, Copy, Debug, PartialEq, Eq, Hash, Structural)]
pub struct OrbitConfig {
    pub zoom_min: i32,
    pub zoom_max: i32,
    /// Field of view, in degrees.
    pub fov: i32,
}

/// The camera part of the configuration, read once at startup.
#[derive(Clone, Copy, Debug, PartialEq, Eq, Hash, Structural)]
pub struct Config {
    pub camera: CameraConfig,
    pub player: OrbitConfig,
}

impl CameraConfig {
    /// The edge-pan tunables make sense: a positive margin, a floor factor
    /// above zero and at most one, and a speed that is not negative.
    pub open spec fn pan_wf(self) -> bool {
        &&& self.edge_margin > 0
        &&& 0 < self.speed_floor <= 1000
        &&& self.max_speed >= 0
    }
}

} // verus!

verus! {

impl SceneCamera {
    /// The camera with its orbit behaviour's cursor capture flipped.
    pub open spec fn cursor_toggled(self) -> SceneCamera {
        match self.orbit {
            Some(o) => SceneCamera {
                orbit: Some(OrbitCamera { cursor_lock_active: !o.cursor_lock_active, ..o }),
                ..self
            },
            None => self,
        }
    }
}

impl AppView {
    /// Flips cursor capture on the one orbiting camera; with no camera, or
    /// with more than one, nothing changes.
    pub open spec fn with_cursor_toggled(self) -> AppView {
        if self.cameras.len() == 1 {
            AppView { cameras: self.cameras.update(0, self.cameras[0].cursor_toggled()), ..self }
        } else {
            self
        }
    }
}

impl App {
    /// Flips whether the orbiting camera captures the mouse cursor.
    pub fn toggle_cam_cursor(&mut self)
        ensures
            final(self)@ == old(self)@.with_cursor_toggled(),
    {
        if self.cameras.len() == 1 {
            let c = self.cameras[0];
            self.cameras.set(0, toggled(c));
        }
    }
}

fn toggled(c: SceneCamera) -> (r: SceneCamera)
    ensures
        r == c.cursor_toggled(),
{
    match c.orbit {
        Some(o) => SceneCamera {
            orbit: Some(OrbitCamera { cursor_lock_active: !o.cursor_lock_active, ..o }),
            ..c
        },
        None => c,
    }
}

} // verus!

verus! {

/// A window as the pan logic sees it: its size and, while the pointer is
/// over it, the cursor position in pixels from the top-left corner.
#[derive(Clone, Copy, Debug, PartialEq, Eq, Hash, Structural)]
pub struct Window {
    pub width: i32,
    pub height: i32,
    pub cursor: Option<Cursor>,
}

#[derive(Clone, Copy, Debug, PartialEq, Eq, Hash, Structural)]
pub struct Cursor {
    pub x: i32,
    pub y: i32,
}

/// A point in the world, in thousandths of a unit.
#[derive(Clone, Copy, Debug, PartialEq, Eq, Hash, Structural)]
pub struct Point {
    pub x: i64,
    pub y: i64,
    pub z: i64,
}

/// What the free camera should do in response to a drag.
#[derive(Clone, Copy, Debug, PartialEq, Eq, Hash, Structural)]
pub enum CameraMotion {
    /// Nothing this tick.
    Idle,
    /// Translate along the camera's ground-flattened left axis (`left`, one
    /// of -1, 0, 1) and forward axis (`forward`, likewise), the direction
    /// normalised, at `speed` thousandths of a unit per second.
    Pan { left: i32, forward: i32, speed: i64 },
    /// Turn about the up axis by `yaw` hundredths of a degree.
    Rotate { yaw: i64 },
}

/// The speed factor, in thousandths, for a cursor `depth` pixels from the
/// edge it is near: the depth as a share of the margin, never below
/// `floor`.
pub open spec fn speed_factor(depth: int, margin: int, floor: int) -> int {
    if depth <= 0 || depth * 1000 / margin < floor {
        floor
    } else {
        depth * 1000 / margin
    }
}

/// Direction along one axis for a cursor at `pos` on a span of `size`:
/// toward the nearer end (the far end on a tie) when within `margin` of
/// it, 1 toward the near end, -1 toward the far end, 0 otherwise. A cursor
/// at or past the far end is nearer to it.
pub open spec fn axis_dir(pos: int, size: int, margin: int) -> int {
    if pos < size - pos {
        if pos <= margin { 1 } else { 0 }
    } else {
        if size - pos <= margin { -1 } else { 0 }
    }
}

/// How far a cursor at `pos` is from the nearer end of a span of `size`;
/// negative past that end.
pub open spec fn axis_depth(pos: int, size: int) -> int {
    if pos < size - pos { pos } else { size - pos }
}

impl CameraConfig {
    /// Panning direction along the left axis for cursor column `x`.
    pub open spec fn pan_left(self, width: int, x: int) -> int {
        axis_dir(x, width, self.edge_margin as int)
    }

    /// Panning direction along the forward axis for cursor row `y`.
    pub open spec fn pan_forward(self, height: int, y: int) -> int {
        axis_dir(y, height, self.edge_margin as int)
    }

    /// How far the cursor is from the edge that sets the pan speed: the
    /// top or bottom edge when it pans toward one, else the left or right
    /// edge.
    pub open spec fn edge_depth(self, width: int, height: int, x: int, y: int) -> int {
        if self.pan_forward(height, y) != 0 {
            axis_depth(y, height)
        } else if self.pan_left(width, x) != 0 {
            axis_depth(x, width)
        } else {
            self.edge_margin as int
        }
    }

    /// The speed factor of an edge-pan with the cursor at (`x`, `y`).
    pub open spec fn pan_factor(self, width: int, height: int, x: int, y: int) -> int {
        speed_factor(self.edge_depth(width, height, x, y), self.edge_margin as int, self.speed_floor as int)
    }

    /// The edge-pan for a cursor at (`x`, `y`) over a `width` by `height`
    /// window: the speed is the configured speed divided by the factor.
    pub open spec fn edge_pan(self, width: int, height: int, x: int, y: int) -> CameraMotion {
        let left = self.pan_left(width, x);
        let forward = self.pan_forward(height, y);
        if left == 0 && forward == 0 {
            CameraMotion::Idle
        } else {
            CameraMotion::Pan {
                left: left as i32,
                forward: forward as i32,
                speed: (self.max_speed * 1000 / self.pan_factor(width, height, x, y)) as i64,
            }
        }
    }

    /// The camera height after one scroll of `delta` steps, kept within the
    /// configured range.
    pub open spec fn zoomed(self, height: int, delta: int) -> int {
        let h = height - delta * self.zoom_speed;
        if h < self.min_height {
            self.min_height as int
        } else if h > self.max_height {
            self.max_height as int
        } else {
            h
        }
    }

    /// The camera height after scrolling by each of `deltas` in turn.
    pub open spec fn zoomed_by_all(self, height: int, deltas: Seq<int>) -> int
        decreases deltas.len(),
    {
        if deltas.len() == 0 {
            height
        } else {
            self.zoomed(self.zoomed_by_all(height, deltas.drop_last()), deltas.last())
        }
    }
}

fn mul_wide(a: i32, b: i32) -> (r: i64)
    ensures
        r == a * b,
        -0x4000_0000_0000_0000 <= r <= 0x4000_0000_0000_0000,
{
    proof {
        let (x, y) = (a as int, b as int);
        assert(-0x4000_0000_0000_0000 <= x * y <= 0x4000_0000_0000_0000) by (nonlinear_arith)
            requires
                -0x8000_0000 <= x < 0x8000_0000,
                -0x8000_0000 <= y < 0x8000_0000,
        ;
    }
    a as i64 * b as i64
}

fn axis(pos: i64, size: i64, margin: i64) -> (r: (i32, i64))
    requires
        -0x8000_0000 <= pos < 0x8000_0000,
        -0x8000_0000 <= size < 0x8000_0000,
    ensures
        r.0 == axis_dir(pos as int, size as int, margin as int),
        r.1 == axis_depth(pos as int, size as int),
{
    let far = size - pos;
    if pos < far {
        (if pos <= margin { 1 } else { 0 }, pos)
    } else {
        (if far <= margin { -1 } else { 0 }, far)
    }
}

fn speed_factor_of(depth: i64, margin: i64, floor: i64) -> (r: i64)
    requires
        margin > 0,
        0 < floor <= 1000,
        -0x1_0000_0000 <= depth < 0x1_0000_0000,
    ensures
        r == speed_factor(depth as int, margin as int, floor as int),
        floor <= r,
{
    if depth <= 0 {
        floor
    } else {
        let f = depth * 1000 / margin;
        if f < floor {
            floor
        } else {
            f
        }
    }
}

impl App {
    /// Reacts to a pointer drag of `drag_x` pixels sideways on the free
    /// camera. With not exactly one window, no cursor over it, or not
    /// exactly one camera, nothing happens. In move mode, on each axis the
    /// cursor pans the camera toward the nearer window edge when it is
    /// within the edge margin of it, or past it; in rotate mode the drag
    /// turns the camera.
    pub fn camera_mouse_pan(&self, drag_x: i32, windows: &Vec<Window>) -> (r: CameraMotion)
        requires
            self.config.camera.pan_wf(),
        ensures
            r == (if windows@.len() != 1 || windows@[0].cursor is None || self.cameras@.len() != 1 {
                CameraMotion::Idle
            } else {
                let w = windows@[0];
                let c = w.cursor->Some_0;
                match self.state.camera_mode {
                    CameraMode::Move => self.config.camera.edge_pan(
                        w.width as int,
                        w.height as int,
                        c.x as int,
                        c.y as int,
                    ),
                    CameraMode::Rotate => CameraMotion::Rotate {
                        yaw: (drag_x * self.config.camera.rotate_speed) as i64,
                    },
                }
            }),
    {
        if windows.len() != 1 {
            return CameraMotion::Idle;
        }
        let w = windows[0];
        let c = match w.cursor {
            Some(c) => c,
            None => return CameraMotion::Idle,
        };
        if self.cameras.len() != 1 {
            return CameraMotion::Idle;
        }
        let cfg = &self.config.camera;
        match self.state.camera_mode {
            CameraMode::Move => {
                let margin = cfg.edge_margin as i64;
                let (left, x_depth) = axis(c.x as i64, w.width as i64, margin);
                let (forward, y_depth) = axis(c.y as i64, w.height as i64, margin);
                if left == 0 && forward == 0 {
                    CameraMotion::Idle
                } else {
                    let depth = if forward != 0 { y_depth } else { x_depth };
                    let factor = speed_factor_of(depth, margin, cfg.speed_floor as i64);
                    let top = cfg.max_speed as i64 * 1000;
                    assert(0 <= top / factor <= top) by (nonlinear_arith)
                        requires
                            top >= 0,
                            factor >= 1,
                    ;
                    CameraMotion::Pan { left, forward, speed: top / factor }
                }
            },
            CameraMode::Rotate => {
                CameraMotion::Rotate { yaw: mul_wide(drag_x, cfg.rotate_speed) }
            },
        }
    }

    /// Reacts to a scroll of `delta` steps: the new camera height, moved
    /// against the scroll and kept within the configured range. With not
    /// exactly one camera there is none.
    pub fn camera_zoom(&self, height: i32, delta: i32) -> (r: Option<i32>)
        requires
            self.config.camera.min_height <= self.config.camera.max_height,
        ensures
            self.cameras@.len() != 1 ==> r is None,
            self.cameras@.len() == 1 ==> r == Some(
                self.config.camera.zoomed(height as int, delta as int) as i32,
            ),
    {
        if self.cameras.len() != 1 {
            return None;
        }
        let cfg = &self.config.camera;
        let h = height as i64 - mul_wide(delta, cfg.zoom_speed);
        if h < cfg.min_height as i64 {
            Some(cfg.min_height)
        } else if h > cfg.max_height as i64 {
            Some(cfg.max_height)
        } else {
            Some(h as i32)
        }
    }

    /// Drags rotate the free camera from now on.
    pub fn camera_to_rotate(&mut self)
        ensures
            final(self)@ == (AppView {
                state: crate::states::GameStateView { camera_mode: CameraMode::Rotate, ..old(self)@.state },
                ..old(self)@
            }),
    {
        self.state.camera_mode = CameraMode::Rotate;
    }

    /// Drags pan the free camera from now on.
    pub fn camera_to_move(&mut self)
        ensures
            final(self)@ == (AppView {
                state: crate::states::GameStateView { camera_mode: CameraMode::Move, ..old(self)@.state },
                ..old(self)@
            }),
    {
        self.state.camera_mode = CameraMode::Move;
    }
}

/// Once zoomed, the camera height stays within the configured range
/// whatever scrolls follow, including scrolls that would overshoot either
/// bound.
pub proof fn lemma_zoom_stays_in_range(cfg: CameraConfig, height: int, deltas: Seq<int>)
    requires
        cfg.min_height <= cfg.max_height,
        cfg.min_height <= height <= cfg.max_height || deltas.len() > 0,
    ensures
        cfg.min_height <= cfg.zoomed_by_all(height, deltas) <= cfg.max_height,
    decreases deltas.len(),
{
    if deltas.len() > 1 {
        lemma_zoom_stays_in_range(cfg, height, deltas.drop_last());
    }
}

/// A cursor exactly at the margin from the left edge, away from the other
/// edges, pans left at factor one: the configured speed.
pub proof fn lemma_pan_factor_at_margin(cfg: CameraConfig, width: int, height: int, y: int)
    requires
        cfg.pan_wf(),
        cfg.edge_margin < width - cfg.edge_margin,
        cfg.edge_margin < y < height - cfg.edge_margin,
    ensures
        cfg.pan_left(width, cfg.edge_margin as int) == 1,
        cfg.pan_forward(height, y) == 0,
        cfg.pan_factor(width, height, cfg.edge_margin as int, y) == 1000,
{
    let m = cfg.edge_margin as int;
    assert(m * 1000 / m == 1000) by (nonlinear_arith)
        requires
            m > 0,
    ;
}

/// A cursor at or beyond the far edge of a window of any width, away from
/// the top and bottom, pans toward that edge at the configured floor
/// factor.
pub proof fn lemma_pan_factor_beyond_edge(cfg: CameraConfig, width: int, height: int, x: int, y: int)
    requires
        cfg.pan_wf(),
        0 <= width <= x,
        cfg.edge_margin < y < height - cfg.edge_margin,
    ensures
        cfg.pan_left(width, x) == -1,
        cfg.pan_factor(width, height, x, y) == cfg.speed_floor,
{
}

/// An edge-pan never moves faster than the configured speed divided by
/// the floor factor.
pub proof fn lemma_pan_speed_bounded(cfg: CameraConfig, width: int, height: int, x: int, y: int)
    requires
        cfg.pan_wf(),
    ensures
        cfg.pan_factor(width, height, x, y) >= cfg.speed_floor,
        cfg.edge_pan(width, height, x, y) matches CameraMotion::Pan { speed, .. } ==> 0 <= speed
            <= cfg.max_speed * 1000 / (cfg.speed_floor as int),
{
    let f = cfg.pan_factor(width, height, x, y);
    let top = cfg.max_speed * 1000;
    vstd::arithmetic::div_mod::lemma_div_is_ordered_by_denominator(top, cfg.speed_floor as int, f);
    vstd::arithmetic::div_mod::lemma_div_pos_is_pos(top, f);
}

} // verus!

verus! {

impl OrbitConfig {
    /// The orbit behaviour this configuration attaches, cursor captured.
    pub open spec fn orbit(self) -> OrbitCamera {
        OrbitCamera { zoom_min: self.zoom_min, zoom_max: self.zoom_max, fov: self.fov, cursor_lock_active: true }
    }
}

impl AppView {
    /// The one camera, if it has no orbit behaviour yet, gets one from the
    /// configuration together with a kinematic collision body.
    pub open spec fn with_orbit_attached(self) -> AppView {
        if self.cameras.len() == 1 && self.cameras[0].orbit is None {
            AppView {
                cameras: self.cameras.update(
                    0,
                    SceneCamera { orbit: Some(self.config.player.orbit()), kinematic_body: true, ..self.cameras[0] },
                ),
                ..self
            }
        } else {
            self
        }
    }

    /// The one camera loses its orbit behaviour and its collision body.
    pub open spec fn with_orbit_detached(self) -> AppView {
        if self.cameras.len() == 1 {
            AppView {
                cameras: self.cameras.update(
                    0,
                    SceneCamera { orbit: None, kinematic_body: false, ..self.cameras[0] },
                ),
                ..self
            }
        } else {
            self
        }
    }

    /// A new scene camera with no behaviour attached.
    pub open spec fn with_camera_spawned(self) -> AppView {
        AppView {
            cameras: self.cameras.push(SceneCamera { entity: self.fresh(), orbit: None, kinematic_body: false }),
            next_entity: crate::entity::next_handle(self.next_entity),
            ..self
        }
    }
}

/// Half of `h`, rounded toward zero.
pub open spec fn half(h: int) -> int {
    if h >= 0 { h / 2 } else { -((-h) / 2) }
}

/// Where the following camera stands for a player at `p`: raised and set
/// back by half the maximum height.
pub open spec fn follow_point(cfg: CameraConfig, p: Point) -> Point {
    Point { x: p.x, y: (p.y + half(cfg.max_height as int)) as i64, z: (p.z + half(cfg.max_height as int)) as i64 }
}

/// Spawns the scene camera.
pub fn spawn_camera(app: &mut App)
    ensures
        final(app)@ == old(app)@.with_camera_spawned(),
{
    let entity = app.spawn();
    app.cameras.push(SceneCamera { entity, orbit: None, kinematic_body: false });
}

impl App {
    /// On entering gameplay, attaches the orbit behaviour and a kinematic
    /// body to the camera; does nothing without exactly one camera, or if
    /// the behaviour is already attached.
    pub fn add_tpv_cam(&mut self)
        ensures
            final(self)@ == old(self)@.with_orbit_attached(),
    {
        if self.cameras.len() != 1 {
            return;
        }
        let c = self.cameras[0];
        if c.orbit.is_some() {
            return;
        }
        let p = self.config.player;
        let orbit = OrbitCamera { zoom_min: p.zoom_min, zoom_max: p.zoom_max, fov: p.fov, cursor_lock_active: true };
        self.cameras.set(0, SceneCamera { orbit: Some(orbit), kinematic_body: true, ..c });
    }

    /// On leaving gameplay, detaches the orbit behaviour and the body,
    /// leaving a free camera.
    pub fn rm_tpv_cam(&mut self)
        ensures
            final(self)@ == old(self)@.with_orbit_detached(),
    {
        if self.cameras.len() != 1 {
            return;
        }
        let c = self.cameras[0];
        self.cameras.set(0, SceneCamera { orbit: None, kinematic_body: false, ..c });
    }

    /// Where the free camera should stand to follow the player at
    /// `players`: none while paused, or without exactly one camera and
    /// exactly one player.
    pub fn sync_camera_to_player(&self, players: &Vec<Point>) -> (r: Option<Point>)
        requires
            forall|i: int| 0 <= i < players@.len() ==> {
                &&& players@[i].y + half(self.config.camera.max_height as int) <= i64::MAX
                &&& players@[i].z + half(self.config.camera.max_height as int) <= i64::MAX
                &&& players@[i].y + half(self.config.camera.max_height as int) >= i64::MIN
                &&& players@[i].z + half(self.config.camera.max_height as int) >= i64::MIN
            },
        ensures
            r == (if self.state.paused || self.cameras@.len() != 1 || players@.len() != 1 {
                None
            } else {
                Some(follow_point(self.config.camera, players@[0]))
            }),
    {
        if self.state.paused || self.cameras.len() != 1 || players.len() != 1 {
            return None;
        }
        let p = players[0];
        let off = (self.config.camera.max_height / 2) as i64;
        Some(Point { x: p.x, y: p.y + off, z: p.z + off })
    }
}

} // verus!

verus! {

/// Sets up the camera at startup: spawns the scene camera.
pub fn plugin(app: &mut App)
    ensures
        final(app)@ == old(app)@.with_camera_spawned(),
{
    spawn_camera(app);
}

} // verus!
