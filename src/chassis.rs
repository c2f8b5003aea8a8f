//! The chassis: its pose, its rigid-body state, and the geometry of the
//! four wheel mounts.
use vstd::prelude::*;

use crate::fixed::{abs, div_fx, fclamp, fdiv, fmul, lemma_mul_within, within, LIMIT, SCALE};
use crate::vector::{
    add3, cross3, dot3, lemma_cross_within, lemma_dot_within, lemma_scale_within, neg3, scale3,
    sub3, within3, IVec3, Vec3,
};

verus! {

/// Bound on the magnitude of a chassis position component.
pub const POSITION_LIMIT: i128 = 1_000_000_000_000_000_000_000_000;

/// Bound on the magnitude of a point velocity component (see [`point_velocity`]).
pub const POINT_VELOCITY_LIMIT: i128 = 5_000_000_000_000;

/// How far the squared length of a pose axis may stray from one unit
/// squared: a hundredth of it.
pub const AXIS_TOLERANCE: i128 = 10_000_000_000;

/// The squared length of `v`, in units of `SCALE * SCALE`.
pub open spec fn norm2(v: IVec3) -> int {
    v.x * v.x + v.y * v.y + v.z * v.z
}

/// A unit vector up to rounding: components of at most one unit and a
/// squared length within `AXIS_TOLERANCE` of one.
pub open spec fn is_unit(v: IVec3) -> bool {
    within3(v, SCALE as int) && within(norm2(v) - SCALE * SCALE, AXIS_TOLERANCE as int)
}

/// Whether `v` is a unit vector up to rounding.
pub fn unit_vector(v: &Vec3) -> (r: bool)
    ensures
        r == is_unit(v@),
{
    if v.x < -SCALE || v.x > SCALE || v.y < -SCALE || v.y > SCALE || v.z < -SCALE || v.z > SCALE {
        return false;
    }
    proof {
        lemma_mul_within(v.x as int, v.x as int, SCALE as int, SCALE as int);
        lemma_mul_within(v.y as int, v.y as int, SCALE as int, SCALE as int);
        lemma_mul_within(v.z as int, v.z as int, SCALE as int, SCALE as int);
    }
    let gap = v.x * v.x + v.y * v.y + v.z * v.z - SCALE * SCALE;
    -AXIS_TOLERANCE <= gap && gap <= AXIS_TOLERANCE
}

/// One of the four wheels, by its mount position.
#[derive(Clone, Copy, Debug, PartialEq, Eq, PartialOrd, Ord, Hash)]
pub enum CarWheel {
    FrontRight,
    FrontLeft,
    BackRight,
    BackLeft,
}

impl CarWheel {
    pub open spec fn is_front_spec(self) -> bool {
        self is FrontRight || self is FrontLeft
    }

    pub open spec fn is_right_spec(self) -> bool {
        self is FrontRight || self is BackRight
    }

    #[verifier::when_used_as_spec(is_front_spec)]
    pub fn is_front(self) -> (r: bool)
        ensures
            r == self.is_front_spec(),
    {
        matches!(self, CarWheel::FrontRight | CarWheel::FrontLeft)
    }

    #[verifier::when_used_as_spec(is_right_spec)]
    pub fn is_right(self) -> (r: bool)
        ensures
            r == self.is_right_spec(),
    {
        matches!(self, CarWheel::FrontRight | CarWheel::BackRight)
    }
}

/// The chassis pose: a position and the chassis's own right, up and back
/// axes in world space, each a unit vector in fixed point.
#[derive(Clone, Copy, Debug, PartialEq, Eq)]
pub struct ChassisFrame {
    pub translation: Vec3,
    pub right: Vec3,
    pub up: Vec3,
    pub back: Vec3,
}

impl ChassisFrame {
    pub open spec fn wf(&self) -> bool {
        &&& within3(self.translation@, POSITION_LIMIT as int)
        &&& is_unit(self.right@)
        &&& is_unit(self.up@)
        &&& is_unit(self.back@)
    }

    pub open spec fn forward(&self) -> IVec3 {
        neg3(self.back@)
    }

    pub open spec fn left(&self) -> IVec3 {
        neg3(self.right@)
    }

    pub open spec fn down(&self) -> IVec3 {
        neg3(self.up@)
    }

    /// The pose at the origin with the conventional axes: right is `+x`, up is
    /// `+y`, forward is `-z`.
    pub fn identity() -> (r: ChassisFrame)
        ensures
            r.wf(),
            r.translation@ == crate::vector::zero3(),
            r.right@ == crate::vector::ivec(SCALE as int, 0, 0),
            r.up@ == crate::vector::ivec(0, SCALE as int, 0),
            r.back@ == crate::vector::ivec(0, 0, SCALE as int),
    {
        ChassisFrame {
            translation: Vec3::zero(),
            right: Vec3::new(SCALE, 0, 0),
            up: Vec3::new(0, SCALE, 0),
            back: Vec3::new(0, 0, SCALE),
        }
    }

    pub fn forward_vec(&self) -> (r: Vec3)
        requires
            self.wf(),
        ensures
            r@ == self.forward(),
            within3(r@, SCALE as int),
    {
        self.back.neg()
    }

    pub fn left_vec(&self) -> (r: Vec3)
        requires
            self.wf(),
        ensures
            r@ == self.left(),
            within3(r@, SCALE as int),
    {
        self.right.neg()
    }

    pub fn down_vec(&self) -> (r: Vec3)
        requires
            self.wf(),
        ensures
            r@ == self.down(),
            within3(r@, SCALE as int),
    {
        self.up.neg()
    }
}

/// Where the ray of `wheel` starts: below the chassis centre by the
/// half-height, ahead or behind by the half-length, and to the wheel's side
/// by the half-width of `half_extents`.
pub open spec fn mount_point(frame: ChassisFrame, half_extents: IVec3, wheel: CarWheel) -> IVec3 {
    let longitudinal = if wheel.is_front() {
        frame.forward()
    } else {
        frame.back@
    };
    let lateral = if wheel.is_right() {
        frame.right@
    } else {
        frame.left()
    };
    add3(
        frame.translation@,
        add3(
            add3(scale3(frame.down(), half_extents.y), scale3(longitudinal, half_extents.z)),
            scale3(lateral, half_extents.x),
        ),
    )
}

/// The world-space start of the ray of `wheel`.
pub fn wheel_mount_point(frame: &ChassisFrame, half_extents: &Vec3, wheel: CarWheel) -> (r: Vec3)
    requires
        frame.wf(),
        within3(half_extents@, LIMIT as int),
    ensures
        r@ == mount_point(*frame, half_extents@, wheel),
{
    let longitudinal = if wheel.is_front() {
        frame.forward_vec()
    } else {
        frame.back
    };
    let lateral = if wheel.is_right() {
        frame.right
    } else {
        frame.left_vec()
    };
    let down = frame.down_vec();
    proof {
        lemma_scale_within(down@, half_extents.y as int, SCALE as int, LIMIT as int);
        lemma_scale_within(longitudinal@, half_extents.z as int, SCALE as int, LIMIT as int);
        lemma_scale_within(lateral@, half_extents.x as int, SCALE as int, LIMIT as int);
    }
    let vertical = down.scale(half_extents.y);
    let along = longitudinal.scale(half_extents.z);
    let across = lateral.scale(half_extents.x);
    frame.translation.add(&vertical.add(&along).add(&across))
}

/// A snapshot of the chassis's rigid-body state, read from the dynamics
/// engine. Points are world-oriented offsets from the chassis origin.
#[derive(Clone, Copy, Debug, PartialEq, Eq)]
pub struct ChassisState {
    pub pose: ChassisFrame,
    pub linear_velocity: Vec3,
    pub angular_velocity: Vec3,
    pub center_of_mass: Vec3,
}

impl ChassisState {
    pub open spec fn wf(&self) -> bool {
        &&& self.pose.wf()
        &&& within3(self.linear_velocity@, LIMIT as int)
        &&& within3(self.angular_velocity@, LIMIT as int)
        &&& within3(self.center_of_mass@, LIMIT as int)
    }
}

fn vec_in_range(v: &Vec3, m: i128) -> (r: bool)
    requires
        0 <= m,
    ensures
        r == within3(v@, m as int),
{
    -m <= v.x && v.x <= m && -m <= v.y && v.y <= m && -m <= v.z && v.z <= m
}

impl ChassisState {
    /// Whether the snapshot is within the model's range: unit axes and
    /// velocities and centre of mass within `LIMIT`.
    pub fn is_valid(&self) -> (r: bool)
        ensures
            r == self.wf(),
    {
        vec_in_range(&self.pose.translation, POSITION_LIMIT) && unit_vector(&self.pose.right)
            && unit_vector(&self.pose.up) && unit_vector(&self.pose.back)
            && vec_in_range(&self.linear_velocity, LIMIT) && vec_in_range(
            &self.angular_velocity,
            LIMIT,
        ) && vec_in_range(&self.center_of_mass, LIMIT)
    }
}

/// Whether a point lies within `LIMIT` of the chassis origin on every axis.
pub fn point_in_range(p: &Vec3) -> (r: bool)
    ensures
        r == within3(p@, LIMIT as int),
{
    vec_in_range(p, LIMIT)
}

/// The velocity of the chassis at point `p`: `v + w x (p - c)`.
pub open spec fn point_velocity(state: ChassisState, p: IVec3) -> IVec3 {
    add3(
        state.linear_velocity@,
        cross3(state.angular_velocity@, sub3(p, state.center_of_mass@)),
    )
}

/// The chassis's speed along its own forward axis (negative when reversing).
pub open spec fn forward_speed(state: ChassisState) -> int {
    dot3(state.pose.forward(), state.linear_velocity@)
}

/// `|forward_speed| / top_speed`, clamped to `[0, SCALE]`.
pub open spec fn normalized_speed(state: ChassisState, top_speed: int) -> int {
    fclamp(fdiv(abs(forward_speed(state)), top_speed), 0, SCALE as int)
}

/// The chassis's speed in kilometres per hour, from metres per second.
pub open spec fn speed_kmh(state: ChassisState) -> int {
    fmul(abs(forward_speed(state)), KMH_PER_METRE_PER_SECOND as int)
}

/// Kilometres per hour in one metre per second.
pub const KMH_PER_METRE_PER_SECOND: i128 = 3_600_000;

/// The speedometer reading: the forward speed's magnitude in km/h.
pub fn car_speed_kmh(state: &ChassisState) -> (r: i128)
    requires
        state.wf(),
    ensures
        r == speed_kmh(*state),
{
    let speed = chassis_forward_speed(state);
    let magnitude = if speed < 0 {
        -speed
    } else {
        speed
    };
    proof {
        crate::fixed::lemma_mul_within(magnitude as int, KMH_PER_METRE_PER_SECOND as int, 3 * LIMIT as int + 1, KMH_PER_METRE_PER_SECOND as int);
    }
    crate::fixed::mul_fx(magnitude, KMH_PER_METRE_PER_SECOND)
}

pub fn chassis_point_velocity(state: &ChassisState, p: &Vec3) -> (r: Vec3)
    requires
        state.wf(),
        within3(p@, LIMIT as int),
    ensures
        r@ == point_velocity(*state, p@),
        within3(r@, POINT_VELOCITY_LIMIT as int),
{
    let arm = p.sub(&state.center_of_mass);
    proof {
        lemma_cross_within(state.angular_velocity@, arm@, LIMIT as int, 2 * LIMIT as int);
    }
    let spin = state.angular_velocity.cross(&arm);
    state.linear_velocity.add(&spin)
}

pub fn chassis_forward_speed(state: &ChassisState) -> (r: i128)
    requires
        state.wf(),
    ensures
        r == forward_speed(*state),
        within(r as int, 3 * LIMIT as int),
{
    let forward = state.pose.forward_vec();
    proof {
        lemma_dot_within(forward@, state.linear_velocity@, SCALE as int, LIMIT as int);
    }
    forward.dot(&state.linear_velocity)
}

pub fn chassis_normalized_speed(state: &ChassisState, top_speed: i128) -> (r: i128)
    requires
        state.wf(),
        0 < top_speed,
    ensures
        r == normalized_speed(*state, top_speed as int),
        0 <= r <= SCALE,
{
    let speed = chassis_forward_speed(state);
    let magnitude = if speed < 0 {
        -speed
    } else {
        speed
    };
    let ratio = div_fx(magnitude, top_speed);
    if ratio < 0 {
        0
    } else if ratio > SCALE {
        SCALE
    } else {
        ratio
    }
}

} // verus!
