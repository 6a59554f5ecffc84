//! The orbiting target camera.
//!
//! The camera circles a target point at a yaw, a pitch and a distance. Its
//! position is never stored: it is the target plus the distance along
//! [`direction`]. Rotation and zoom input is accumulated as pending deltas,
//! each clamped as it arrives, and takes effect in [`TargetCamera::update`],
//! which also moves the target along the camera's axes.

use vstd::prelude::*;
use crate::trig::{cos, cosine, sin, sine, wrap_angle, wrap_wide, HALF_PI, TAU};
use crate::units::{clamp, clamp_to, div_toward_zero, trunc_div, V3, Vec3, UNIT, WORLD_LIMIT};

verus! {

/// Smallest pitch: a hundredth of a radian off straight up.
pub const PITCH_MIN: i64 = 10_000;

/// Largest pitch: a hundredth of a radian off straight down.
pub const PITCH_MAX: i64 = 3_131_592;

/// The camera stays at least this far beyond the near plane from its target.
pub const MIN_CLEARANCE: i64 = 100_000;

/// The camera stays at most this far beyond the near plane from its target.
pub const MAX_CLEARANCE: i64 = 1_000_000_000;

/// Microradians turned per unit of rotation input.
pub const ROTATE_STEP: i64 = 5_000;

/// Distance covered per unit of zoom input.
pub const ZOOM_STEP: i64 = 200_000;

/// Whole units per second that the target moves at.
pub const BASE_SPEED: i64 = 2;

/// What the speed is multiplied by while `faster` is held.
pub const FAST_FACTOR: i64 = 5;

/// `1 / sqrt(2)`, scaled by [`UNIT`]: the factor for two axes at once.
pub const INV_SQRT_2: i64 = 707_107;

/// `1 / sqrt(3)`, scaled by [`UNIT`]: the factor for three axes at once.
pub const INV_SQRT_3: i64 = 577_350;

/// Which ways the user currently wants the target to move.
#[derive(Clone, Copy, Debug, PartialEq, Eq, Structural)]
pub struct Movement {
    pub forward: bool,
    pub backward: bool,
    pub left: bool,
    pub right: bool,
    pub up: bool,
    pub down: bool,
    pub faster: bool,
}

/// `+1`, `-1` or `0` for a pair of opposite flags.
pub open spec fn axis(plus: bool, minus: bool) -> int {
    (if plus { 1int } else { 0 }) - (if minus { 1int } else { 0 })
}

impl Movement {
    /// Intent along the forward axis.
    pub open spec fn ahead(self) -> int {
        axis(self.forward, self.backward)
    }

    /// Intent along the right axis.
    pub open spec fn sideways(self) -> int {
        axis(self.right, self.left)
    }

    /// Intent along the up axis.
    pub open spec fn upward(self) -> int {
        axis(self.up, self.down)
    }

    /// No axis is in use: the intent vector has length zero.
    pub open spec fn is_idle(self) -> bool {
        self.ahead() == 0 && self.sideways() == 0 && self.upward() == 0
    }

    /// The number of axes in use.
    pub open spec fn axes_in_use(self) -> int {
        (if self.ahead() != 0 { 1int } else { 0 }) + (if self.sideways() != 0 { 1int } else { 0 })
            + (if self.upward() != 0 { 1int } else { 0 })
    }

    /// The reciprocal of the intent vector's length, scaled by [`UNIT`];
    /// zero for the zero vector, which is never normalised.
    pub open spec fn norm_factor(self) -> int {
        let n = self.axes_in_use();
        if n == 1 {
            UNIT as int
        } else if n == 2 {
            INV_SQRT_2 as int
        } else if n == 3 {
            INV_SQRT_3 as int
        } else {
            0
        }
    }

    /// Whole units per second.
    pub open spec fn speed(self) -> int {
        if self.faster {
            BASE_SPEED * FAST_FACTOR
        } else {
            BASE_SPEED as int
        }
    }

    /// No flag is set.
    pub fn none() -> (m: Movement)
        ensures
            m == (Movement {
                forward: false,
                backward: false,
                left: false,
                right: false,
                up: false,
                down: false,
                faster: false,
            }),
    {
        Movement {
            forward: false,
            backward: false,
            left: false,
            right: false,
            up: false,
            down: false,
            faster: false,
        }
    }
}

/// A width-to-height ratio, kept as the two lengths it came from.
#[derive(Clone, Copy, Debug, PartialEq, Eq, Structural)]
pub struct Aspect {
    pub width: u32,
    pub height: u32,
}

impl Aspect {
    /// The ratio is a positive number.
    pub open spec fn is_positive(self) -> bool {
        self.width > 0 && self.height > 0
    }
}

/// The parameters of the perspective projection.
#[derive(Clone, Copy, Debug, PartialEq, Eq, Structural)]
pub struct Projection {
    pub aspect: Aspect,
    /// Vertical field of view, in microradians.
    pub fov: u32,
    /// Distance of the near plane, scaled by [`UNIT`].
    pub near: u32,
    /// Distance of the far plane, scaled by [`UNIT`].
    pub far: u32,
}

/// What a look-at transform is built from.
#[derive(Clone, Copy, Debug, PartialEq, Eq, Structural)]
pub struct ViewFrame {
    pub eye: Vec3,
    pub target: Vec3,
    pub up: Vec3,
}

/// The unit vector from the target towards the camera, scaled by [`UNIT`]:
/// `(sin pitch sin yaw, sin pitch cos yaw, cos pitch)`.
pub open spec fn direction(yaw: int, pitch: int) -> V3 {
    V3 {
        x: trunc_div(sine(pitch) * sine(yaw), UNIT as int),
        y: trunc_div(sine(pitch) * cosine(yaw), UNIT as int),
        z: cosine(pitch),
    }
}

/// The camera's forward axis projected onto the ground plane.
pub open spec fn forward_axis(yaw: int) -> V3 {
    V3 { x: -sine(yaw), y: -cosine(yaw), z: 0 }
}

/// The camera's right axis, which always lies in the ground plane.
pub open spec fn right_axis(yaw: int) -> V3 {
    V3 { x: -cosine(yaw), y: sine(yaw), z: 0 }
}

/// The world's up axis.
pub open spec fn up_axis() -> V3 {
    V3 { x: 0, y: 0, z: UNIT as int }
}

/// The intent vector in world axes, not yet normalised.
pub open spec fn heading(m: Movement, yaw: int) -> V3 {
    forward_axis(yaw).times(m.ahead()).plus(right_axis(yaw).times(m.sideways())).plus(
        up_axis().times(m.upward()),
    )
}

/// The mathematical state of a [`TargetCamera`].
pub struct CameraModel {
    pub target: V3,
    pub yaw: int,
    pub pitch: int,
    pub distance: int,
    pub pending_yaw: int,
    pub pending_pitch: int,
    pub pending_zoom: int,
    pub projection: Projection,
    pub movement: Movement,
}

impl CameraModel {
    pub open spec fn min_distance(self) -> int {
        self.projection.near + MIN_CLEARANCE
    }

    pub open spec fn max_distance(self) -> int {
        self.projection.near + MAX_CLEARANCE
    }

    /// The yaw that the next update will bring.
    pub open spec fn goal_yaw(self) -> int {
        self.yaw + self.pending_yaw
    }

    /// The pitch that the next update will bring.
    pub open spec fn goal_pitch(self) -> int {
        self.pitch + self.pending_pitch
    }

    /// The distance that the next update will bring.
    pub open spec fn goal_distance(self) -> int {
        self.distance - self.pending_zoom
    }

    /// Pitch and distance lie within their clamps, now and after the next
    /// update; yaw is reduced; the aspect ratio is positive; the target lies
    /// in the world.
    pub open spec fn wf(self) -> bool {
        &&& self.target.within(WORLD_LIMIT as int)
        &&& 0 <= self.yaw < TAU
        &&& 0 <= self.goal_yaw() < TAU
        &&& PITCH_MIN <= self.pitch <= PITCH_MAX
        &&& PITCH_MIN <= self.goal_pitch() <= PITCH_MAX
        &&& self.min_distance() <= self.distance <= self.max_distance()
        &&& self.min_distance() <= self.goal_distance() <= self.max_distance()
        &&& self.projection.aspect.is_positive()
    }

    /// Rotation or zoom input is waiting for the next update.
    pub open spec fn has_pending(self) -> bool {
        self.pending_yaw != 0 || self.pending_pitch != 0 || self.pending_zoom != 0
    }

    /// The camera for these parameters: at the origin, facing along `-y`,
    /// with pitch and distance clamped.
    pub open spec fn initial(
        aspect: Aspect,
        fov: u32,
        near: u32,
        far: u32,
        pitch: int,
        distance: int,
    ) -> CameraModel {
        CameraModel {
            target: V3 { x: 0, y: 0, z: 0 },
            yaw: 0,
            pitch: clamp(pitch, PITCH_MIN as int, PITCH_MAX as int),
            distance: clamp(distance, near + MIN_CLEARANCE, near + MAX_CLEARANCE),
            pending_yaw: 0,
            pending_pitch: 0,
            pending_zoom: 0,
            projection: Projection { aspect, fov, near, far },
            movement: Movement {
                forward: false,
                backward: false,
                left: false,
                right: false,
                up: false,
                down: false,
                faster: false,
            },
        }
    }

    /// The same camera with another aspect ratio.
    pub open spec fn with_aspect(self, aspect: Aspect) -> CameraModel {
        CameraModel { projection: Projection { aspect, ..self.projection }, ..self }
    }

    /// The same camera with other movement flags.
    pub open spec fn with_movement(self, movement: Movement) -> CameraModel {
        CameraModel { movement, ..self }
    }

    /// Where the camera stands: the target plus the distance along the
    /// direction for yaw and pitch.
    pub open spec fn position(self) -> V3 {
        self.target.plus(direction(self.yaw, self.pitch).times(self.distance))
    }

    /// Rotation input: the pending yaw grows by `dx` steps and wraps, the
    /// pending pitch by `dy` steps and is clamped.
    pub open spec fn rotate(self, dx: int, dy: int) -> CameraModel {
        CameraModel {
            pending_yaw: wrap_angle(self.goal_yaw() + dx * ROTATE_STEP) - self.yaw,
            pending_pitch: clamp(
                self.goal_pitch() + dy * ROTATE_STEP,
                PITCH_MIN as int,
                PITCH_MAX as int,
            ) - self.pitch,
            ..self
        }
    }

    /// Zoom input: the pending distance shrinks by `delta` steps and is
    /// clamped.
    pub open spec fn zoom(self, delta: int) -> CameraModel {
        CameraModel {
            pending_zoom: self.distance - clamp(
                self.goal_distance() - delta * ZOOM_STEP,
                self.min_distance(),
                self.max_distance(),
            ),
            ..self
        }
    }

    /// World coordinates covered per microsecond: the normalised heading
    /// times the speed.
    pub open spec fn velocity(self) -> V3 {
        let h = heading(self.movement, self.yaw);
        let k = self.movement.speed() * self.movement.norm_factor();
        V3 {
            x: trunc_div(h.x * k, UNIT as int),
            y: trunc_div(h.y * k, UNIT as int),
            z: trunc_div(h.z * k, UNIT as int),
        }
    }

    /// One step of `dt` microseconds: the target moves at the current
    /// velocity and stays in the world, then the pending deltas take effect.
    pub open spec fn update(self, dt: int) -> CameraModel {
        CameraModel {
            target: self.target.plus(self.velocity().times(dt)).clamped(WORLD_LIMIT as int),
            yaw: self.goal_yaw(),
            pitch: self.goal_pitch(),
            distance: self.goal_distance(),
            pending_yaw: 0,
            pending_pitch: 0,
            pending_zoom: 0,
            ..self
        }
    }
}

/// A camera that orbits a target point.
#[derive(Clone, Copy, Debug)]
pub struct TargetCamera {
    target: Vec3,
    yaw: i64,
    pitch: i64,
    distance: i64,
    pending_yaw: i64,
    pending_pitch: i64,
    pending_zoom: i64,
    projection: Projection,
    movement: Movement,
}

impl View for TargetCamera {
    type V = CameraModel;

    closed spec fn view(&self) -> CameraModel {
        CameraModel {
            target: self.target@,
            yaw: self.yaw as int,
            pitch: self.pitch as int,
            distance: self.distance as int,
            pending_yaw: self.pending_yaw as int,
            pending_pitch: self.pending_pitch as int,
            pending_zoom: self.pending_zoom as int,
            projection: self.projection,
            movement: self.movement,
        }
    }
}

fn axis_of(plus: bool, minus: bool) -> (a: i64)
    ensures
        a == axis(plus, minus),
{
    let p: i64 = if plus { 1 } else { 0 };
    let m: i64 = if minus { 1 } else { 0 };
    p - m
}

/// `sign * value` for a sign of `-1`, `0` or `1`.
fn signed(sign: i64, value: i64) -> (r: i64)
    requires
        -1 <= sign <= 1,
        -UNIT <= value <= UNIT,
    ensures
        r == sign * value,
{
    assert(sign == 1 ==> sign * value == value) by (nonlinear_arith);
    assert(sign == -1 ==> sign * value == -value) by (nonlinear_arith);
    assert(sign == 0 ==> sign * value == 0) by (nonlinear_arith);
    if sign > 0 {
        value
    } else if sign < 0 {
        -value
    } else {
        0
    }
}

/// `h * k / UNIT`, rounded towards zero.
fn scaled(h: i64, k: i64) -> (r: i64)
    requires
        -2 * UNIT <= h <= 2 * UNIT,
        0 <= k <= 10 * UNIT,
    ensures
        r == trunc_div(h * k, UNIT as int),
        -20 * UNIT <= r <= 20 * UNIT,
{
    assert(-20_000_000_000_000 <= h * k <= 20_000_000_000_000) by (nonlinear_arith)
        requires
            -2_000_000 <= h <= 2_000_000,
            0 <= k <= 10_000_000,
    ;
    div_toward_zero(h * k, UNIT)
}

impl TargetCamera {
    /// Pitch and distance lie within their clamps, the aspect ratio is
    /// positive and the target lies in the world: this holds of every
    /// camera.
    #[verifier::type_invariant]
    pub open spec fn within_clamps(self) -> bool {
        self@.wf()
    }

    /// A camera at the origin with no yaw, the given projection, and the
    /// given pitch and distance brought into their clamps.
    pub fn new(
        aspect: Aspect,
        fov: u32,
        near: u32,
        far: u32,
        initial_pitch: i64,
        initial_distance: i64,
    ) -> (cam: TargetCamera)
        requires
            aspect.is_positive(),
        ensures
            cam@ == CameraModel::initial(
                aspect,
                fov,
                near,
                far,
                initial_pitch as int,
                initial_distance as int,
            ),
            cam@.wf(),
    {
        let lo: i64 = near as i64 + MIN_CLEARANCE;
        let hi: i64 = near as i64 + MAX_CLEARANCE;
        TargetCamera {
            target: Vec3::origin(),
            yaw: 0,
            pitch: clamp_to(initial_pitch as i128, PITCH_MIN, PITCH_MAX),
            distance: clamp_to(initial_distance as i128, lo, hi),
            pending_yaw: 0,
            pending_pitch: 0,
            pending_zoom: 0,
            projection: Projection { aspect, fov, near, far },
            movement: Movement::none(),
        }
    }

    /// The point that the camera orbits.
    pub fn target(&self) -> (t: Vec3)
        ensures
            t@ == self@.target,
    {
        self.target
    }

    pub fn yaw(&self) -> (a: i64)
        ensures
            a == self@.yaw,
    {
        self.yaw
    }

    pub fn pitch(&self) -> (a: i64)
        ensures
            a == self@.pitch,
    {
        self.pitch
    }

    pub fn distance(&self) -> (d: i64)
        ensures
            d == self@.distance,
    {
        self.distance
    }

    pub fn movement(&self) -> (m: Movement)
        ensures
            m == self@.movement,
    {
        self.movement
    }

    pub fn projection(&self) -> (p: Projection)
        ensures
            p == self@.projection,
    {
        self.projection
    }

    /// Whether rotation or zoom input is waiting for the next update.
    pub fn has_pending(&self) -> (b: bool)
        ensures
            b == self@.has_pending(),
    {
        self.pending_yaw != 0 || self.pending_pitch != 0 || self.pending_zoom != 0
    }

    /// Replaces the movement flags; nothing else changes.
    pub fn set_movement(&mut self, movement: Movement)
        ensures
            final(self)@ == old(self)@.with_movement(movement),
            final(self)@.wf(),
    {
        proof {
            use_type_invariant(&*self);
        }
        self.movement = movement;
    }

    /// Replaces the aspect ratio of the projection; nothing else changes.
    pub fn update_aspect(&mut self, aspect: Aspect)
        requires
            aspect.is_positive(),
        ensures
            final(self)@ == old(self)@.with_aspect(aspect),
            final(self)@.wf(),
    {
        proof {
            use_type_invariant(&*self);
        }
        self.projection.aspect = aspect;
    }

    /// Accumulates rotation input. Position, yaw and pitch stay as they are
    /// until the next update.
    pub fn rotate(&mut self, dx: i64, dy: i64)
        ensures
            final(self)@ == old(self)@.rotate(dx as int, dy as int),
            final(self)@.wf(),
    {
        proof {
            use_type_invariant(&*self);
        }
        let step: i128 = ROTATE_STEP as i128;
        let goal_yaw: i128 = (self.yaw + self.pending_yaw) as i128 + (dx as i128) * step;
        let goal_pitch: i128 = (self.pitch + self.pending_pitch) as i128 + (dy as i128) * step;
        self.pending_yaw = wrap_wide(goal_yaw) - self.yaw;
        self.pending_pitch = clamp_to(goal_pitch, PITCH_MIN, PITCH_MAX) - self.pitch;
    }

    /// Accumulates zoom input. The distance stays as it is until the next
    /// update.
    pub fn zoom(&mut self, delta: i64)
        ensures
            final(self)@ == old(self)@.zoom(delta as int),
            final(self)@.wf(),
    {
        proof {
            use_type_invariant(&*self);
        }
        let lo: i64 = self.projection.near as i64 + MIN_CLEARANCE;
        let hi: i64 = self.projection.near as i64 + MAX_CLEARANCE;
        let step: i128 = ZOOM_STEP as i128;
        let goal: i128 = (self.distance - self.pending_zoom) as i128 - (delta as i128) * step;
        self.pending_zoom = self.distance - clamp_to(goal, lo, hi);
    }

    /// World coordinates that the target covers per microsecond.
    pub fn velocity(&self) -> (v: Vec3)
        ensures
            v@ == self@.velocity(),
            v@.within(20 * UNIT),
    {
        proof {
            use_type_invariant(self);
        }
        let m = self.movement;
        let ahead = axis_of(m.forward, m.backward);
        let sideways = axis_of(m.right, m.left);
        let upward = axis_of(m.up, m.down);
        let mut in_use: u8 = 0;
        if ahead != 0 {
            in_use = in_use + 1;
        }
        if sideways != 0 {
            in_use = in_use + 1;
        }
        if upward != 0 {
            in_use = in_use + 1;
        }
        let norm: i64 = if in_use == 1 {
            UNIT
        } else if in_use == 2 {
            INV_SQRT_2
        } else if in_use == 3 {
            INV_SQRT_3
        } else {
            0
        };
        let speed: i64 = if m.faster {
            BASE_SPEED * FAST_FACTOR
        } else {
            BASE_SPEED
        };
        let k: i64 = speed * norm;
        let s = sin(self.yaw);
        let c = cos(self.yaw);
        let hx: i64 = signed(ahead, -s) + signed(sideways, -c);
        let hy: i64 = signed(ahead, -c) + signed(sideways, s);
        let hz: i64 = signed(upward, UNIT);
        proof {
            let h = heading(self.movement, self.yaw as int);
            assert(h.x == hx && h.y == hy && h.z == hz) by (nonlinear_arith)
                requires
                    h == heading(self.movement, self.yaw as int),
                    hx == ahead * (-s) + sideways * (-c),
                    hy == ahead * (-c) + sideways * s,
                    hz == upward * UNIT,
                    s == sine(self.yaw as int),
                    c == cosine(self.yaw as int),
                    ahead == self.movement.ahead(),
                    sideways == self.movement.sideways(),
                    upward == self.movement.upward(),
            ;
            assert(k == self.movement.speed() * self.movement.norm_factor());
        }
        Vec3 { x: scaled(hx, k), y: scaled(hy, k), z: scaled(hz, k) }
    }

    /// Advances the camera by `dt` microseconds and says whether the target
    /// moved.
    pub fn update(&mut self, dt: u32) -> (moved: bool)
        ensures
            final(self)@ == old(self)@.update(dt as int),
            final(self)@.wf(),
            moved == (final(self)@.target != old(self)@.target),
    {
        proof {
            use_type_invariant(&*self);
        }
        let v = self.velocity();
        let t = self.target;
        assert(-100_000_000_000_000_000 <= v.x * dt <= 100_000_000_000_000_000
            && -100_000_000_000_000_000 <= v.y * dt <= 100_000_000_000_000_000
            && -100_000_000_000_000_000 <= v.z * dt <= 100_000_000_000_000_000)
            by (nonlinear_arith)
            requires
                -20_000_000 <= v.x <= 20_000_000,
                -20_000_000 <= v.y <= 20_000_000,
                -20_000_000 <= v.z <= 20_000_000,
                0 <= dt <= 0xffff_ffff,
        ;
        let x = clamp_to(t.x as i128 + (v.x as i128) * (dt as i128), -WORLD_LIMIT, WORLD_LIMIT);
        let y = clamp_to(t.y as i128 + (v.y as i128) * (dt as i128), -WORLD_LIMIT, WORLD_LIMIT);
        let z = clamp_to(t.z as i128 + (v.z as i128) * (dt as i128), -WORLD_LIMIT, WORLD_LIMIT);
        *self = TargetCamera {
            target: Vec3 { x, y, z },
            yaw: self.yaw + self.pending_yaw,
            pitch: self.pitch + self.pending_pitch,
            distance: self.distance - self.pending_zoom,
            pending_yaw: 0,
            pending_pitch: 0,
            pending_zoom: 0,
            projection: self.projection,
            movement: self.movement,
        };
        x != t.x || y != t.y || z != t.z
    }

    /// Where the camera stands, recomputed from the current state.
    pub fn project_pos(&self) -> (p: Vec3)
        ensures
            p@ == self@.position(),
    {
        proof {
            use_type_invariant(self);
        }
        let sp = sin(self.pitch);
        let cp = cos(self.pitch);
        let sy = sin(self.yaw);
        let cy = cos(self.yaw);
        assert(-1_000_000_000_000 <= sp * sy <= 1_000_000_000_000 && -1_000_000_000_000 <= sp
            * cy <= 1_000_000_000_000) by (nonlinear_arith)
            requires
                -1_000_000 <= sp <= 1_000_000,
                -1_000_000 <= sy <= 1_000_000,
                -1_000_000 <= cy <= 1_000_000,
        ;
        let dx = div_toward_zero(sp * sy, UNIT);
        let dy = div_toward_zero(sp * cy, UNIT);
        let d = self.distance;
        assert(-6_000_000_000_000_000 <= dx * d <= 6_000_000_000_000_000
            && -6_000_000_000_000_000 <= dy * d <= 6_000_000_000_000_000
            && -6_000_000_000_000_000 <= cp * d <= 6_000_000_000_000_000) by (nonlinear_arith)
            requires
                -1_000_000 <= dx <= 1_000_000,
                -1_000_000 <= dy <= 1_000_000,
                -1_000_000 <= cp <= 1_000_000,
                0 <= d <= 6_000_000_000,
        ;
        Vec3 {
            x: self.target.x + dx * d,
            y: self.target.y + dy * d,
            z: self.target.z + cp * d,
        }
    }

    /// The eye, the target and the up axis that the view transform is built
    /// from, recomputed from the current state.
    pub fn view_frame(&self) -> (f: ViewFrame)
        ensures
            f.eye@ == self@.position(),
            f.target@ == self@.target,
            f.up@ == up_axis(),
    {
        ViewFrame { eye: self.project_pos(), target: self.target, up: Vec3 { x: 0, y: 0, z: UNIT } }
    }
}

proof fn lemma_trunc_div_of_multiple(v: int, k: int, d: int)
    by (nonlinear_arith)
    requires
        d > 0,
        k >= 0,
    ensures
        trunc_div(v * (k * d), d) == v * k,
{
    if v >= 0 {
        assert(v * (k * d) == (v * k) * d);
        assert(((v * k) * d) / d == v * k);
    } else {
        assert(-(v * (k * d)) == ((-v) * k) * d);
        assert((((-v) * k) * d) / d == (-v) * k);
    }
}

proof fn lemma_trunc_div_magnitude(v: int, d: int, floor: int)
    by (nonlinear_arith)
    requires
        d > 0,
        floor >= 0,
        v >= floor * d || v <= -(floor * d),
    ensures
        trunc_div(v, d) >= floor || trunc_div(v, d) <= -floor,
{
}

/// Rotation, zoom, new movement flags, a new aspect ratio and an update all
/// keep pitch and distance within their clamps.
pub proof fn lemma_clamps_are_kept(
    m: CameraModel,
    dx: int,
    dy: int,
    delta: int,
    movement: Movement,
    aspect: Aspect,
    dt: int,
)
    requires
        m.wf(),
        aspect.is_positive(),
    ensures
        m.rotate(dx, dy).wf(),
        m.zoom(delta).wf(),
        m.with_movement(movement).wf(),
        m.with_aspect(aspect).wf(),
        m.update(dt).wf(),
        PITCH_MIN <= m.rotate(dx, dy).update(dt).pitch <= PITCH_MAX,
        m.min_distance() <= m.zoom(delta).update(dt).distance <= m.max_distance(),
{
}

/// The axes agree with one another: looking along the ground, forward is
/// the way from the camera to the target, and the right axis is the forward
/// axis a quarter turn on.
pub proof fn lemma_axes_are_consistent(yaw: int)
    ensures
        forward_axis(yaw) == direction(yaw, HALF_PI as int).times(-1),
        right_axis(yaw) == forward_axis(yaw + HALF_PI),
        up_axis() == direction(yaw, 0),
{
    crate::trig::lemma_sine_at_quarter_turns();
    crate::trig::lemma_sine_turns(yaw);
    let s = sine(yaw);
    let c = cosine(yaw);
    assert(sine(HALF_PI as int) * s == s * UNIT && sine(HALF_PI as int) * c == c * UNIT)
        by (nonlinear_arith)
        requires
            sine(HALF_PI as int) == UNIT,
    ;
    assert(sine(0) * s == 0 && sine(0) * c == 0) by (nonlinear_arith)
        requires
            sine(0) == 0,
    ;
    lemma_trunc_div_of_multiple(s, 1, UNIT as int);
    lemma_trunc_div_of_multiple(c, 1, UNIT as int);
    assert(s * (1 * UNIT) == s * UNIT && c * (1 * UNIT) == c * UNIT);
}

/// The distance clamp keeps the target beyond the near plane, now and after
/// any zoom: the near plane never cuts through the target.
pub proof fn lemma_target_beyond_near_plane(m: CameraModel, delta: int, dt: int)
    requires
        m.wf(),
    ensures
        m.distance > m.projection.near,
        m.zoom(delta).update(dt).distance > m.projection.near,
        m.zoom(delta).update(dt).projection == m.projection,
{
}

/// An intent vector of length zero is not normalised: the velocity is zero.
pub proof fn lemma_idle_velocity_is_zero(m: CameraModel)
    requires
        m.movement.is_idle(),
    ensures
        m.movement.norm_factor() == 0,
        m.velocity() == (V3 { x: 0, y: 0, z: 0 }),
{
    let h = heading(m.movement, m.yaw);
    let k = m.movement.speed() * m.movement.norm_factor();
    assert(k == 0) by (nonlinear_arith)
        requires
            k == m.movement.speed() * m.movement.norm_factor(),
            m.movement.norm_factor() == 0,
    ;
    assert(h.x * k == 0 && h.y * k == 0 && h.z * k == 0) by (nonlinear_arith)
        requires
            k == 0,
    ;
}

/// Within the pitch clamp the camera never stands straight above or below
/// its target: the offset from the target to the camera has a horizontal
/// part, so the view direction is never parallel to the up axis.
pub proof fn lemma_never_above_target(m: CameraModel)
    requires
        m.wf(),
    ensures
        m.position().minus(m.target).x != 0 || m.position().minus(m.target).y != 0,
{
    let sp = sine(m.pitch);
    let sy = sine(m.yaw);
    let cy = cosine(m.yaw);
    let d = m.distance;
    assert(wrap_angle(m.pitch) == m.pitch);
    crate::trig::lemma_half_wave_samples();
    crate::trig::lemma_half_wave_grows_inward(PITCH_MIN as int, m.pitch);
    crate::trig::lemma_sine_bounds(m.pitch);
    crate::trig::lemma_heading_never_vanishes(m.yaw);
    let dir = direction(m.yaw, m.pitch);
    if sy >= 700_000 || sy <= -700_000 {
        assert(sp * sy >= 7_000 * 1_000_000 || sp * sy <= -(7_000 * 1_000_000))
            by (nonlinear_arith)
            requires
                sp >= 10_000,
                sy >= 700_000 || sy <= -700_000,
        ;
        lemma_trunc_div_magnitude(sp * sy, UNIT as int, 7_000);
        assert(dir.x * d != 0) by (nonlinear_arith)
            requires
                dir.x >= 7_000 || dir.x <= -7_000,
                d >= 100_000,
        ;
    } else {
        assert(sp * cy >= 7_000 * 1_000_000 || sp * cy <= -(7_000 * 1_000_000))
            by (nonlinear_arith)
            requires
                sp >= 10_000,
                cy >= 700_000 || cy <= -700_000,
        ;
        lemma_trunc_div_magnitude(sp * cy, UNIT as int, 7_000);
        assert(dir.y * d != 0) by (nonlinear_arith)
            requires
                dir.y >= 7_000 || dir.y <= -7_000,
                d >= 100_000,
        ;
    }
}

/// However far the rotation input goes, the update that follows leaves the
/// pitch within its clamp and the camera off the vertical through its
/// target.
pub proof fn lemma_rotation_never_degenerates(m: CameraModel, dx: int, dy: int, dt: int)
    requires
        m.wf(),
    ensures
        PITCH_MIN <= m.rotate(dx, dy).update(dt).pitch <= PITCH_MAX,
        ({
            let n = m.rotate(dx, dy).update(dt);
            n.position().minus(n.target).x != 0 || n.position().minus(n.target).y != 0
        }),
{
    lemma_never_above_target(m.rotate(dx, dy).update(dt));
}

/// Zooming in past the nearest distance stops there, and zooming in again
/// stays there; a zoom out afterwards starts from the nearest distance, not
/// from beyond it.
pub proof fn lemma_zoom_saturates(m: CameraModel, first: int, second: int, back: int)
    requires
        m.wf(),
        m.goal_distance() - first * ZOOM_STEP <= m.min_distance(),
        second >= 0,
        back >= 0,
    ensures
        m.zoom(first).goal_distance() == m.min_distance(),
        m.zoom(first).zoom(second).goal_distance() == m.min_distance(),
        m.zoom(first).zoom(-back).goal_distance() == clamp(
            m.min_distance() + back * ZOOM_STEP,
            m.min_distance(),
            m.max_distance(),
        ),
{
    assert(second * ZOOM_STEP >= 0) by (nonlinear_arith)
        requires
            second >= 0,
            ZOOM_STEP == 200_000,
    ;
    assert((-back) * ZOOM_STEP == -(back * ZOOM_STEP)) by (nonlinear_arith);
}

/// With no axis in use and nothing pending, an update of any length, a
/// zero-length one included, changes nothing.
pub proof fn lemma_idle_update_changes_nothing(m: CameraModel, dt: int)
    requires
        m.wf(),
        m.movement.is_idle(),
        !m.has_pending(),
    ensures
        m.update(dt) == m,
        m.update(dt).position() == m.position(),
{
    let h = heading(m.movement, m.yaw);
    assert(h.x == 0 && h.y == 0 && h.z == 0) by (nonlinear_arith)
        requires
            h == heading(m.movement, m.yaw),
            m.movement.ahead() == 0,
            m.movement.sideways() == 0,
            m.movement.upward() == 0,
    ;
    let k = m.movement.speed() * m.movement.norm_factor();
    assert(h.x * k == 0 && h.y * k == 0 && h.z * k == 0) by (nonlinear_arith)
        requires
            h.x == 0 && h.y == 0 && h.z == 0,
    ;
    let v = m.velocity();
    assert(v.x == 0 && v.y == 0 && v.z == 0);
    assert(v.x * dt == 0 && v.y * dt == 0 && v.z * dt == 0) by (nonlinear_arith)
        requires
            v.x == 0 && v.y == 0 && v.z == 0,
    ;
}

/// An update of length zero leaves the target where it is, whatever the
/// flags.
pub proof fn lemma_zero_step_keeps_target(m: CameraModel)
    requires
        m.wf(),
    ensures
        m.update(0).target == m.target,
{
    let v = m.velocity();
    assert(v.x * 0 == 0 && v.y * 0 == 0 && v.z * 0 == 0) by (nonlinear_arith);
}

/// With only the forward axis in use the velocity is the speed along the
/// forward axis, exactly.
pub proof fn lemma_forward_velocity(m: CameraModel)
    requires
        m.movement.ahead() == 1,
        m.movement.sideways() == 0,
        m.movement.upward() == 0,
    ensures
        m.velocity() == forward_axis(m.yaw).times(m.movement.speed()),
{
    let f = forward_axis(m.yaw);
    let h = heading(m.movement, m.yaw);
    let sp = m.movement.speed();
    assert(h.x == f.x && h.y == f.y && h.z == 0) by (nonlinear_arith)
        requires
            h == heading(m.movement, m.yaw),
            f == forward_axis(m.yaw),
            m.movement.ahead() == 1,
            m.movement.sideways() == 0,
            m.movement.upward() == 0,
    ;
    assert(m.movement.norm_factor() == UNIT);
    lemma_trunc_div_of_multiple(h.x, sp, UNIT as int);
    lemma_trunc_div_of_multiple(h.y, sp, UNIT as int);
    lemma_trunc_div_of_multiple(h.z, sp, UNIT as int);
    assert(h.z * sp == 0 && f.z * sp == 0) by (nonlinear_arith)
        requires
            h.z == 0,
            f.z == 0,
    ;
}

/// Moving forward for `dt` microseconds shifts the target by the speed
/// times `dt` along the forward axis, exactly, as long as the target stays
/// in the world: a second at base speed is [`BASE_SPEED`] whole units.
pub proof fn lemma_forward_motion(m: CameraModel, dt: int)
    requires
        m.wf(),
        m.movement.ahead() == 1,
        m.movement.sideways() == 0,
        m.movement.upward() == 0,
        m.target.plus(forward_axis(m.yaw).times(m.movement.speed() * dt)).within(
            WORLD_LIMIT as int,
        ),
    ensures
        m.update(dt).target == m.target.plus(
            forward_axis(m.yaw).times(m.movement.speed() * dt),
        ),
{
    lemma_forward_velocity(m);
    let f = forward_axis(m.yaw);
    let sp = m.movement.speed();
    assert((f.x * sp) * dt == f.x * (sp * dt) && (f.y * sp) * dt == f.y * (sp * dt) && (f.z
        * sp) * dt == f.z * (sp * dt)) by (nonlinear_arith);
}

/// Displacement is linear in time: as long as the target stays in the world,
/// a step of twice the length moves it twice as far.
pub proof fn lemma_displacement_is_linear(m: CameraModel, dt: int)
    requires
        m.wf(),
        m.target.plus(m.velocity().times(dt)).within(WORLD_LIMIT as int),
        m.target.plus(m.velocity().times(2 * dt)).within(WORLD_LIMIT as int),
    ensures
        m.update(2 * dt).target.minus(m.target) == m.update(dt).target.minus(m.target).times(2),
{
    let v = m.velocity();
    assert(v.x * (2 * dt) == (v.x * dt) * 2 && v.y * (2 * dt) == (v.y * dt) * 2 && v.z * (2
        * dt) == (v.z * dt) * 2) by (nonlinear_arith);
}

/// A new aspect ratio changes the projection and nothing that the view is
/// built from: target, position, yaw, pitch and distance stay.
pub proof fn lemma_aspect_changes_projection_only(m: CameraModel, aspect: Aspect)
    ensures
        m.with_aspect(aspect).position() == m.position(),
        m.with_aspect(aspect).target == m.target,
        m.with_aspect(aspect).projection.aspect == aspect,
        m.with_aspect(aspect).projection.fov == m.projection.fov,
        m.with_aspect(aspect).projection.near == m.projection.near,
        m.with_aspect(aspect).projection.far == m.projection.far,
        m.with_aspect(aspect).with_aspect(m.projection.aspect) == m,
{
}

} // verus!
