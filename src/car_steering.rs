//! Tire grip: the lateral force that cancels a share of each grounded
//! wheel's sideways slip.
use vstd::prelude::*;

use crate::car_suspension::{CarPhysics, ForceContribution, RayHit, WheelContact};
use crate::chassis::{
    chassis_normalized_speed, chassis_point_velocity, normalized_speed, point_velocity, CarWheel,
    ChassisFrame, ChassisState, POINT_VELOCITY_LIMIT,
};
use crate::fixed::{
    div_fx, fdiv, flerp, fmul, lemma_div_within, lemma_mul_within, mul_fx, within, HALF, LIMIT,
    SCALE,
};
use crate::vector::{dot3, lemma_dot_within, lemma_scale_within, lerp3, scale3, within3, IVec3, Vec3};

verus! {

/// The axis along which a wheel's slip is cancelled. A back wheel uses the
/// chassis's right axis. A front wheel's axis turns with the steering angle:
/// from forward (angle `0`) to right (`HALF`), then on to back (`SCALE`).
pub open spec fn steering_direction(frame: ChassisFrame, wheel: CarWheel, angle: int) -> IVec3 {
    if wheel.is_front() {
        if angle <= HALF {
            lerp3(frame.forward(), frame.right@, fdiv(angle, HALF as int))
        } else {
            lerp3(frame.right@, frame.back@, fdiv(angle - HALF, HALF as int))
        }
    } else {
        frame.right@
    }
}

/// The share of slip cancelled per tick: from the wheel's maximum grip at
/// rest toward its minimum as `normalized_speed * multiplier` grows.
pub open spec fn grip_factor(car: CarPhysics, wheel: CarWheel, normalized_speed: int) -> int {
    let t = fmul(normalized_speed, car.tire_grip_velocity_multiplier as int);
    if wheel.is_front() {
        flerp(car.front_tire_max_grip_factor as int, car.front_tire_min_grip_factor as int, t)
    } else {
        flerp(car.back_tire_max_grip_factor as int, car.back_tire_min_grip_factor as int, t)
    }
}

/// `tire_mass * (-slip * grip) / dt`: the force that would change the slip
/// velocity by `-slip * grip` within one tick.
pub open spec fn grip_magnitude(slip: int, grip: int, tire_mass: int, dt: int) -> int {
    fmul(tire_mass, fdiv(-fmul(slip, grip), dt))
}

/// The grip force of a grounded wheel, along its [`steering_direction`].
pub open spec fn grip_force(
    car: CarPhysics,
    state: ChassisState,
    wheel: CarWheel,
    hit: RayHit,
    dt: int,
) -> IVec3 {
    let dir = steering_direction(state.pose, wheel, car.wheel_rotation as int);
    let slip = dot3(dir, point_velocity(state, hit.point@));
    let grip = grip_factor(car, wheel, normalized_speed(state, car.top_speed as int));
    scale3(dir, grip_magnitude(slip, grip, car.tire_mass as int, dt))
}

pub fn wheel_steering_direction(frame: &ChassisFrame, wheel: CarWheel, angle: i128) -> (r: Vec3)
    requires
        frame.wf(),
        0 <= angle <= SCALE,
    ensures
        r@ == steering_direction(*frame, wheel, angle as int),
        within3(r@, 3 * SCALE as int + 1),
{
    if wheel.is_front() {
        if angle <= HALF {
            frame.forward_vec().lerp(&frame.right, div_fx(angle, HALF))
        } else {
            frame.right.lerp(&frame.back, div_fx(angle - HALF, HALF))
        }
    } else {
        frame.right
    }
}

pub fn wheel_grip_factor(car: &CarPhysics, wheel: CarWheel, normalized_speed: i128) -> (r: i128)
    requires
        car.wf(),
        0 <= normalized_speed <= SCALE,
    ensures
        r == grip_factor(*car, wheel, normalized_speed as int),
        within(r as int, 3_000_000_000_000),
{
    proof {
        lemma_mul_within(normalized_speed as int, car.tire_grip_velocity_multiplier as int, SCALE as int, LIMIT as int);
        lemma_div_within(normalized_speed * car.tire_grip_velocity_multiplier, SCALE as int, SCALE * LIMIT);
    }
    let t = mul_fx(normalized_speed, car.tire_grip_velocity_multiplier);
    let (max, min) = if wheel.is_front() {
        (car.front_tire_max_grip_factor, car.front_tire_min_grip_factor)
    } else {
        (car.back_tire_max_grip_factor, car.back_tire_min_grip_factor)
    };
    proof {
        lemma_mul_within((min - max) as int, t as int, 2 * LIMIT as int, LIMIT as int + 1);
        lemma_div_within((min - max) * t, SCALE as int, 2 * LIMIT * (LIMIT + 1));
    }
    max + mul_fx(min - max, t)
}

/// The grip force of one wheel: none for an airborne wheel, else
/// [`grip_force`] at the contact point, for a tick of `dt`.
pub fn update_car_steering(car: &CarPhysics, state: &ChassisState, contact: &WheelContact, dt: i128) -> (r:
    Option<ForceContribution>)
    requires
        car.wf(),
        state.wf(),
        contact.wf(),
        0 < dt <= LIMIT,
    ensures
        contact.hit is None ==> r is None,
        contact.hit matches Some(h) ==> r matches Some(c) && c.force@ == grip_force(
            *car,
            *state,
            contact.wheel,
            h,
            dt as int,
        ) && c.point == h.point && c.wf(),
{
    match contact.hit {
        None => None,
        Some(hit) => {
            let dir = wheel_steering_direction(&state.pose, contact.wheel, car.wheel_rotation);
            let velocity = chassis_point_velocity(state, &hit.point);
            proof {
                lemma_dot_within(dir@, velocity@, 3 * SCALE as int + 1, POINT_VELOCITY_LIMIT as int);
            }
            let slip = dir.dot(&velocity);
            let speed = chassis_normalized_speed(state, car.top_speed);
            let grip = wheel_grip_factor(car, contact.wheel, speed);
            proof {
                lemma_mul_within(slip as int, grip as int, 50_000_000_000_000, 3_000_000_000_000);
                lemma_div_within(slip * grip, SCALE as int, 50_000_000_000_000int * 3_000_000_000_000);
            }
            let change = -mul_fx(slip, grip);
            proof {
                lemma_mul_within(change as int, SCALE as int, 200_000_000_000_000_000_000, SCALE as int);
                lemma_div_within(change * SCALE, dt as int, 200_000_000_000_000_000_000int * SCALE);
            }
            let accel = div_fx(change, dt);
            proof {
                lemma_mul_within(car.tire_mass as int, accel as int, LIMIT as int, 200_000_000_000_000_000_000_000_001);
                lemma_div_within(car.tire_mass * accel, SCALE as int, LIMIT as int * 200_000_000_000_000_000_000_000_001);
            }
            let magnitude = mul_fx(car.tire_mass, accel);
            proof {
                lemma_scale_within(dir@, magnitude as int, 3 * SCALE as int + 1, 300_000_000_000_000_000_000_000_000_000);
            }
            Some(ForceContribution { force: dir.scale(magnitude), point: hit.point })
        }
    }
}

} // verus!
