//! The steering controller, and where the wheel meshes are placed.
use vstd::prelude::*;

use crate::car_suspension::{CarPhysics, WheelContact};
use crate::chassis::{chassis_normalized_speed, normalized_speed, ChassisState};
use crate::controls::Controls;
use crate::fixed::{
    div_fx, fclamp, fdiv, flerp, fmul, lemma_div_within, lemma_mul_within, mul_fx, HALF,
    LIMIT, SCALE,
};

verus! {

/// Steering rate at speed.
pub const MIN_STEERING_RATE: i128 = 100_000;

/// Steering rate at a standstill.
pub const MAX_STEERING_RATE: i128 = 1_500_000;

/// Multiplier on the normalized speed: the steering rate bottoms out at a
/// tenth of top speed.
pub const STEERING_FADE_GAIN: i128 = 10;

/// How far the wheel mesh sits above its contact point.
pub const WHEEL_HALF_HEIGHT: i128 = 300_000;

/// Yaw of a front wheel steered fully left, in radians (pi / 3).
pub const FULL_LEFT_YAW: i128 = 1_047_198;

/// Yaw of a front wheel pointing straight ahead (2 pi).
pub const STRAIGHT_YAW: i128 = 6_283_185;

/// Yaw of a front wheel steered fully right (5 pi / 3).
pub const FULL_RIGHT_YAW: i128 = 5_235_988;

/// How fast the steering angle moves: quick at low speed, slow from a tenth
/// of top speed on.
pub open spec fn steering_rate(state: ChassisState, top_speed: int) -> int {
    let faded = fclamp(normalized_speed(state, top_speed) * STEERING_FADE_GAIN, 0, SCALE as int);
    flerp(MIN_STEERING_RATE as int, MAX_STEERING_RATE as int, SCALE - faded)
}

/// Sets the steering rate from the chassis's current speed.
pub fn update_car_wheel_rotation_speed(car: &mut CarPhysics, state: &ChassisState)
    requires
        old(car).wf(),
        state.wf(),
    ensures
        *final(car) == (CarPhysics {
            wheel_rotation_speed: steering_rate(*state, old(car).top_speed as int) as i128,
            ..*old(car)
        }),
        final(car).wf(),
{
    let speed = chassis_normalized_speed(state, car.top_speed);
    let boosted = speed * STEERING_FADE_GAIN;
    let faded = if boosted > SCALE {
        SCALE
    } else {
        boosted
    };
    let t = SCALE - faded;
    proof {
        assert(0 <= fmul(MAX_STEERING_RATE - MIN_STEERING_RATE, t as int) <= MAX_STEERING_RATE
            - MIN_STEERING_RATE) by (nonlinear_arith)
            requires
                0 <= t <= SCALE,
        {
        }
    }
    car.wheel_rotation_speed = MIN_STEERING_RATE + mul_fx(MAX_STEERING_RATE - MIN_STEERING_RATE, t);
}

/// One tick of the steering controller: left lowers the angle and right
/// raises it by `rate * dt`; with neither held the angle moves toward `HALF`
/// by that step without passing it. The result is clamped to `[lower, upper]`.
pub open spec fn steer(
    angle: int,
    rate: int,
    dt: int,
    controls: Controls,
    lower: int,
    upper: int,
) -> int {
    let step = fmul(rate, dt);
    let turned_left = if controls.steer_left {
        angle - step
    } else {
        angle
    };
    let turned = if controls.steer_right {
        turned_left + step
    } else {
        turned_left
    };
    let settled = if !controls.steer_left && !controls.steer_right {
        if turned <= HALF {
            if turned + step < HALF {
                turned + step
            } else {
                HALF as int
            }
        } else {
            if turned - step > HALF {
                turned - step
            } else {
                HALF as int
            }
        }
    } else {
        turned
    };
    fclamp(settled, lower, upper)
}

/// Advances the steering angle by one tick of `dt`.
pub fn update_car_wheel_control(car: &mut CarPhysics, controls: &Controls, dt: i128)
    requires
        old(car).wf(),
        0 < dt <= LIMIT,
    ensures
        *final(car) == (CarPhysics {
            wheel_rotation: steer(
                old(car).wheel_rotation as int,
                old(car).wheel_rotation_speed as int,
                dt as int,
                *controls,
                old(car).steering_lower_bound as int,
                old(car).steering_upper_bound as int,
            ) as i128,
            ..*old(car)
        }),
        final(car).wf(),
{
    proof {
        lemma_mul_within(car.wheel_rotation_speed as int, dt as int, LIMIT as int, LIMIT as int);
        lemma_div_within(car.wheel_rotation_speed * dt, SCALE as int, LIMIT * LIMIT);
    }
    let step = mul_fx(car.wheel_rotation_speed, dt);
    let mut angle = car.wheel_rotation;
    if controls.steer_left {
        angle = angle - step;
    }
    if controls.steer_right {
        angle = angle + step;
    }
    if !controls.steer_left && !controls.steer_right {
        angle = if angle <= HALF {
            if angle + step < HALF {
                angle + step
            } else {
                HALF
            }
        } else {
            if angle - step > HALF {
                angle - step
            } else {
                HALF
            }
        };
    }
    car.wheel_rotation = if angle < car.steering_lower_bound {
        car.steering_lower_bound
    } else if angle > car.steering_upper_bound {
        car.steering_upper_bound
    } else {
        angle
    };
}

/// The yaw of a front wheel mesh for steering angle `angle`, in radians.
pub open spec fn wheel_yaw(angle: int) -> int {
    if angle <= HALF {
        flerp(FULL_LEFT_YAW as int, 0, fdiv(angle, HALF as int))
    } else {
        flerp(STRAIGHT_YAW as int, FULL_RIGHT_YAW as int, fdiv(angle - HALF, HALF as int))
    }
}

/// The height of a grounded wheel mesh above the chassis's ray origin plane:
/// the compressed share of the suspension, plus the wheel's half-height.
pub open spec fn wheel_height(time_of_impact: int, max_suspension: int) -> int {
    fmul(SCALE - fdiv(time_of_impact, max_suspension), max_suspension) + WHEEL_HALF_HEIGHT
}

/// Where to put one wheel's mesh; `None` leaves that part as it was.
#[derive(Clone, Copy, Debug, PartialEq, Eq)]
pub struct WheelPlacement {
    /// Rotation about the chassis's up axis, for front wheels.
    pub yaw: Option<i128>,
    /// Local height, for grounded wheels.
    pub height: Option<i128>,
}

/// Places one wheel's mesh: front wheels turn with the steering angle, and
/// grounded wheels follow their suspension.
pub fn update_car_wheels(car: &CarPhysics, contact: &WheelContact) -> (r: WheelPlacement)
    requires
        car.wf(),
        contact.wf(),
    ensures
        r.yaw == (if contact.wheel.is_front() {
            Some(wheel_yaw(car.wheel_rotation as int) as i128)
        } else {
            None
        }),
        r.height == (match contact.hit {
            Some(h) => Some(wheel_height(h.time_of_impact as int, car.max_suspension as int) as i128),
            None => None,
        }),
{
    let yaw = if contact.wheel.is_front() {
        let angle = car.wheel_rotation;
        if angle <= HALF {
            let t = div_fx(angle, HALF);
            Some(FULL_LEFT_YAW + mul_fx(-FULL_LEFT_YAW, t))
        } else {
            let t = div_fx(angle - HALF, HALF);
            Some(STRAIGHT_YAW + mul_fx(FULL_RIGHT_YAW - STRAIGHT_YAW, t))
        }
    } else {
        None
    };
    let height = match contact.hit {
        Some(h) => {
            proof {
                lemma_mul_within(h.time_of_impact as int, SCALE as int, LIMIT as int, SCALE as int);
                lemma_div_within(h.time_of_impact * SCALE, car.max_suspension as int, LIMIT * SCALE);
            }
            let compressed = SCALE - div_fx(h.time_of_impact, car.max_suspension);
            proof {
                lemma_mul_within(compressed as int, car.max_suspension as int, LIMIT * SCALE + SCALE + 1, LIMIT as int);
            }
            Some(mul_fx(compressed, car.max_suspension) + WHEEL_HALF_HEIGHT)
        },
        None => None,
    };
    WheelPlacement { yaw, height }
}

} // verus!
