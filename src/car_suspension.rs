//! Vehicle tuning, wheel contacts, and the spring-damper suspension.
use vstd::prelude::*;

use crate::chassis::{
    chassis_point_velocity, point_velocity, CarWheel, ChassisState, POINT_VELOCITY_LIMIT,
};
use crate::fixed::{fmul, lemma_div_within, lemma_mul_within, mul_fx, within, HALF, LIMIT, SCALE};
use crate::vector::{dot3, lemma_dot_within, lemma_scale_within, scale3, within3, IVec3, Vec3};

verus! {

/// Bound on the magnitude of a force component that one wheel contributes.
pub const FORCE_LIMIT: i128 = 1_000_000_000_000_000_000_000_000_000_000;

/// Which wheels the drive force acts on.
#[derive(Clone, Copy, Debug, PartialEq, Eq)]
pub enum DrivenWheels {
    Front,
    Back,
    All,
}

impl DrivenWheels {
    pub open spec fn drives_spec(self, wheel: CarWheel) -> bool {
        match self {
            DrivenWheels::Front => wheel.is_front(),
            DrivenWheels::Back => !wheel.is_front(),
            DrivenWheels::All => true,
        }
    }

    #[verifier::when_used_as_spec(drives_spec)]
    pub fn drives(self, wheel: CarWheel) -> (r: bool)
        ensures
            r == self.drives_spec(wheel),
    {
        match self {
            DrivenWheels::Front => wheel.is_front(),
            DrivenWheels::Back => !wheel.is_front(),
            DrivenWheels::All => true,
        }
    }
}

/// The vehicle's tuning, and its steering state (`wheel_rotation`, the
/// normalized steering angle with `HALF` straight ahead, and
/// `wheel_rotation_speed`, how fast it moves per second).
///
/// All quantities are fixed point. Points and offsets are in chassis-sized
/// units, speeds per second.
#[derive(Clone, Copy, Debug, PartialEq, Eq)]
pub struct CarPhysics {
    /// Half-extents of the chassis, which place the wheel mounts.
    pub chassis_size: Vec3,
    /// Length of the suspension ray; a hit at this distance is uncompressed.
    pub max_suspension: i128,
    pub suspension_strength: i128,
    pub suspension_damping: i128,
    pub front_tire_max_grip_factor: i128,
    pub front_tire_min_grip_factor: i128,
    pub back_tire_max_grip_factor: i128,
    pub back_tire_min_grip_factor: i128,
    pub tire_grip_velocity_multiplier: i128,
    pub tire_mass: i128,
    pub top_speed: i128,
    pub wheel_rotation: i128,
    pub wheel_rotation_speed: i128,
    pub steering_lower_bound: i128,
    pub steering_upper_bound: i128,
    pub driven_wheels: DrivenWheels,
    /// Drive magnitude with no pedal held, as a fraction of `top_speed`.
    pub idle_accel_ratio: i128,
}

impl CarPhysics {
    pub open spec fn wf(&self) -> bool {
        &&& within3(self.chassis_size@, LIMIT as int)
        &&& 0 < self.max_suspension <= LIMIT
        &&& within(self.suspension_strength as int, LIMIT as int)
        &&& within(self.suspension_damping as int, LIMIT as int)
        &&& within(self.front_tire_max_grip_factor as int, LIMIT as int)
        &&& within(self.front_tire_min_grip_factor as int, LIMIT as int)
        &&& within(self.back_tire_max_grip_factor as int, LIMIT as int)
        &&& within(self.back_tire_min_grip_factor as int, LIMIT as int)
        &&& within(self.tire_grip_velocity_multiplier as int, LIMIT as int)
        &&& within(self.tire_mass as int, LIMIT as int)
        &&& 0 < self.top_speed <= LIMIT
        &&& 0 <= self.wheel_rotation_speed <= LIMIT
        &&& 0 <= self.steering_lower_bound <= HALF <= self.steering_upper_bound <= SCALE
        &&& self.steering_lower_bound <= self.wheel_rotation <= self.steering_upper_bound
        &&& within(self.idle_accel_ratio as int, LIMIT as int)
    }
}

fn in_range(v: i128, m: i128) -> (r: bool)
    requires
        0 <= m,
    ensures
        r == within(v as int, m as int),
{
    -m <= v && v <= m
}

impl CarPhysics {
    /// Whether this tuning is usable: every quantity within `LIMIT`, a
    /// positive suspension length and top speed, steering bounds around the
    /// centre, and the steering state inside them.
    pub fn is_valid(&self) -> (r: bool)
        ensures
            r == self.wf(),
    {
        in_range(self.chassis_size.x, LIMIT) && in_range(self.chassis_size.y, LIMIT) && in_range(
            self.chassis_size.z,
            LIMIT,
        ) && 0 < self.max_suspension && self.max_suspension <= LIMIT && in_range(
            self.suspension_strength,
            LIMIT,
        ) && in_range(self.suspension_damping, LIMIT) && in_range(
            self.front_tire_max_grip_factor,
            LIMIT,
        ) && in_range(self.front_tire_min_grip_factor, LIMIT) && in_range(
            self.back_tire_max_grip_factor,
            LIMIT,
        ) && in_range(self.back_tire_min_grip_factor, LIMIT) && in_range(
            self.tire_grip_velocity_multiplier,
            LIMIT,
        ) && in_range(self.tire_mass, LIMIT) && 0 < self.top_speed && self.top_speed <= LIMIT
            && 0 <= self.wheel_rotation_speed && self.wheel_rotation_speed <= LIMIT && 0
            <= self.steering_lower_bound && self.steering_lower_bound <= HALF && HALF
            <= self.steering_upper_bound && self.steering_upper_bound <= SCALE
            && self.steering_lower_bound <= self.wheel_rotation && self.wheel_rotation
            <= self.steering_upper_bound && in_range(self.idle_accel_ratio, LIMIT)
    }
}

impl Default for CarPhysics {
    /// A sports car: rear-wheel drive, stiff springs, grippy front tires.
    fn default() -> (r: CarPhysics)
        ensures
            r.wf(),
            r.chassis_size@ == crate::vector::ivec(950_000, 400_000, 1_300_000),
            r.max_suspension == 700_000,
            r.suspension_strength == 450_000_000,
            r.suspension_damping == 100_000_000,
            r.front_tire_max_grip_factor == 900_000,
            r.front_tire_min_grip_factor == 400_000,
            r.back_tire_max_grip_factor == 700_000,
            r.back_tire_min_grip_factor == 300_000,
            r.tire_grip_velocity_multiplier == 5_000_000,
            r.tire_mass == 700_000,
            r.top_speed == 350_000_000,
            r.wheel_rotation == HALF,
            r.wheel_rotation_speed == 1_500_000,
            r.steering_lower_bound == 200_000,
            r.steering_upper_bound == 800_000,
            r.driven_wheels == DrivenWheels::Back,
            r.idle_accel_ratio == 100_000,
    {
        CarPhysics {
            chassis_size: Vec3::new(950_000, 400_000, 1_300_000),
            max_suspension: 700_000,
            suspension_strength: 450_000_000,
            suspension_damping: 100_000_000,
            front_tire_max_grip_factor: 900_000,
            front_tire_min_grip_factor: 400_000,
            back_tire_max_grip_factor: 700_000,
            back_tire_min_grip_factor: 300_000,
            tire_grip_velocity_multiplier: 5_000_000,
            tire_mass: 700_000,
            top_speed: 350_000_000,
            wheel_rotation: HALF,
            wheel_rotation_speed: 1_500_000,
            steering_lower_bound: 200_000,
            steering_upper_bound: 800_000,
            driven_wheels: DrivenWheels::Back,
            idle_accel_ratio: 100_000,
        }
    }
}

/// Where a wheel's suspension ray met the ground.
#[derive(Clone, Copy, Debug, PartialEq, Eq)]
pub struct RayHit {
    /// Distance along the ray, in `[0, max_suspension]`.
    pub time_of_impact: i128,
    /// The contact point.
    pub point: Vec3,
}

/// One wheel and what its suspension ray found this tick (`None`: airborne).
#[derive(Clone, Copy, Debug, PartialEq, Eq)]
pub struct WheelContact {
    pub wheel: CarWheel,
    pub hit: Option<RayHit>,
}

impl WheelContact {
    pub open spec fn wf(&self) -> bool {
        match self.hit {
            Some(h) => within(h.time_of_impact as int, LIMIT as int) && within3(h.point@, LIMIT as int),
            None => true,
        }
    }
}

impl WheelContact {
    /// Whether the hit, if any, is within `LIMIT` of the chassis origin.
    pub fn is_valid(&self) -> (r: bool)
        ensures
            r == self.wf(),
    {
        match self.hit {
            Some(h) => in_range(h.time_of_impact, LIMIT) && crate::chassis::point_in_range(&h.point),
            None => true,
        }
    }
}

/// A force and the point where it acts.
#[derive(Clone, Copy, Debug, PartialEq, Eq)]
pub struct ForceContribution {
    pub force: Vec3,
    pub point: Vec3,
}

impl ForceContribution {
    pub open spec fn wf(&self) -> bool {
        within3(self.force@, FORCE_LIMIT as int) && within3(self.point@, LIMIT as int)
    }
}

/// Spring force minus damping: `offset * strength - spring_velocity * damping`.
pub open spec fn suspension_magnitude(
    offset: int,
    spring_velocity: int,
    strength: int,
    damping: int,
) -> int {
    fmul(offset, strength) - fmul(spring_velocity, damping)
}

/// The suspension force of a grounded wheel: along the chassis's up axis,
/// with the compression `max_suspension - time_of_impact` and the velocity of
/// the contact point along that axis.
pub open spec fn suspension_force(car: CarPhysics, state: ChassisState, hit: RayHit) -> IVec3 {
    let up = state.pose.up@;
    let offset = car.max_suspension - hit.time_of_impact;
    let spring_velocity = dot3(up, point_velocity(state, hit.point@));
    scale3(
        up,
        suspension_magnitude(offset, spring_velocity, car.suspension_strength as int, car.suspension_damping as int),
    )
}

/// The suspension force of one wheel: none for an airborne wheel, else
/// [`suspension_force`] at the contact point.
pub fn update_car_suspension(car: &CarPhysics, state: &ChassisState, contact: &WheelContact) -> (r:
    Option<ForceContribution>)
    requires
        car.wf(),
        state.wf(),
        contact.wf(),
    ensures
        contact.hit is None ==> r is None,
        contact.hit matches Some(h) ==> r matches Some(c) && c.force@ == suspension_force(
            *car,
            *state,
            h,
        ) && c.point == h.point && c.wf(),
{
    match contact.hit {
        None => None,
        Some(hit) => {
            let up = state.pose.up;
            let velocity = chassis_point_velocity(state, &hit.point);
            proof {
                lemma_dot_within(up@, velocity@, SCALE as int, POINT_VELOCITY_LIMIT as int);
            }
            let spring_velocity = up.dot(&velocity);
            let offset = car.max_suspension - hit.time_of_impact;
            proof {
                lemma_mul_within(offset as int, car.suspension_strength as int, 2 * LIMIT as int, LIMIT as int);
                lemma_mul_within(spring_velocity as int, car.suspension_damping as int, 15_000_000_000_001, LIMIT as int);
                lemma_div_within(offset * car.suspension_strength, SCALE as int, 2 * LIMIT * LIMIT);
                lemma_div_within(spring_velocity * car.suspension_damping, SCALE as int, 15_000_000_000_001 * LIMIT);
            }
            let magnitude = mul_fx(offset, car.suspension_strength) - mul_fx(spring_velocity, car.suspension_damping);
            proof {
                lemma_scale_within(up@, magnitude as int, SCALE as int, 100_000_000_000_000_000);
            }
            Some(ForceContribution { force: up.scale(magnitude), point: hit.point })
        }
    }
}

} // verus!
