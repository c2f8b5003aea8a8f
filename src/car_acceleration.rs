//! The drive model: a longitudinal force on each grounded driven wheel,
//! shaped by a power curve over the normalized speed.
use vstd::prelude::*;

use crate::car_suspension::{CarPhysics, ForceContribution, WheelContact};
use crate::chassis::{
    chassis_forward_speed, chassis_normalized_speed, forward_speed, normalized_speed, ChassisState,
};
use crate::controls::Controls;
use crate::fixed::{
    div_fx, fdiv, flerp, fmul, lemma_div_within, lemma_mul_within, mul_fx, within, LIMIT, SCALE,
};
use crate::vector::{lemma_scale_within, neg3, scale3, zero3, IVec3, Vec3};

verus! {

/// End of the launch ramp of the power curve.
pub const TEEING_OFF: i128 = 400_000;

/// Start of the taper of the power curve near top speed.
pub const NEAR_LIMIT: i128 = 750_000;

/// Power at a standstill.
pub const LAUNCH_POWER: i128 = 500_000;

/// Power that the taper approaches just below top speed.
pub const TAPER_POWER: i128 = 300_000;

/// The share of drive force available at normalized speed `s`: a ramp from
/// half to full power up to `TEEING_OFF`, full power up to `NEAR_LIMIT`, a
/// taper toward `TAPER_POWER` below top speed, and none at top speed.
pub open spec fn power_curve(s: int) -> int {
    if s <= TEEING_OFF {
        flerp(LAUNCH_POWER as int, SCALE as int, fdiv(s, TEEING_OFF as int))
    } else if s <= NEAR_LIMIT {
        SCALE as int
    } else if s != SCALE {
        flerp(SCALE as int, TAPER_POWER as int, fdiv(s - NEAR_LIMIT, SCALE - NEAR_LIMIT))
    } else {
        0
    }
}

pub fn evaluate_power_curve(normalized_speed: i128) -> (r: i128)
    requires
        within(normalized_speed as int, LIMIT as int),
    ensures
        r == power_curve(normalized_speed as int),
{
    let s = normalized_speed;
    if s <= TEEING_OFF {
        let t = div_fx(s, TEEING_OFF);
        LAUNCH_POWER + mul_fx(SCALE - LAUNCH_POWER, t)
    } else if s <= NEAR_LIMIT {
        SCALE
    } else if s != SCALE {
        let t = div_fx(s - NEAR_LIMIT, SCALE - NEAR_LIMIT);
        SCALE + mul_fx(TAPER_POWER - SCALE, t)
    } else {
        0
    }
}

/// The drive magnitude before the power curve: `top_speed` with a pedal
/// held, else the idle share of it, which bleeds off speed.
pub open spec fn accel_input(car: CarPhysics, controls: Controls) -> int {
    if controls.throttle || controls.brake {
        car.top_speed as int
    } else {
        fmul(car.top_speed as int, car.idle_accel_ratio as int)
    }
}

/// Which way the drive pushes: `1` forward on throttle, `-1` back on brake;
/// with no pedal, against the current forward speed, or `0` at a standstill.
pub open spec fn drive_sense(controls: Controls, speed: int) -> int {
    if controls.throttle {
        1
    } else if controls.brake {
        -1
    } else if speed > 0 {
        -1
    } else if speed < 0 {
        1
    } else {
        0
    }
}

/// The drive magnitude after the power curve.
pub open spec fn available_force(car: CarPhysics, state: ChassisState, controls: Controls) -> int {
    fmul(power_curve(normalized_speed(state, car.top_speed as int)), accel_input(car, controls))
}

/// The drive force of a grounded driven wheel: the available force along
/// the chassis's back axis, negated to push forward. Forward and backward
/// pushes of equal size are exact opposites.
pub open spec fn drive_force(car: CarPhysics, state: ChassisState, controls: Controls) -> IVec3 {
    let push = scale3(state.pose.back@, available_force(car, state, controls));
    let sense = drive_sense(controls, forward_speed(state));
    if sense > 0 {
        neg3(push)
    } else if sense < 0 {
        push
    } else {
        zero3()
    }
}

/// Whether a wheel receives drive force this tick.
pub open spec fn is_driving(car: CarPhysics, controls: Controls, contact: WheelContact) -> bool {
    contact.hit is Some && car.driven_wheels.drives(contact.wheel) && accel_input(car, controls) > 0
}

/// The drive force of one wheel: [`drive_force`] at the contact point of a
/// grounded driven wheel while the drive magnitude is positive, else none.
pub fn car_acceleration(car: &CarPhysics, state: &ChassisState, controls: &Controls, contact: &WheelContact) -> (r:
    Option<ForceContribution>)
    requires
        car.wf(),
        state.wf(),
        contact.wf(),
    ensures
        !is_driving(*car, *controls, *contact) ==> r is None,
        is_driving(*car, *controls, *contact) ==> (r matches Some(c) && c.force@ == drive_force(
            *car,
            *state,
            *controls,
        ) && c.point == contact.hit->0.point && c.wf()),
{
    let hit = match contact.hit {
        None => { return None; },
        Some(h) => h,
    };
    if !car.driven_wheels.drives(contact.wheel) {
        return None;
    }
    let input = if controls.throttle || controls.brake {
        car.top_speed
    } else {
        proof {
            lemma_mul_within(car.top_speed as int, car.idle_accel_ratio as int, LIMIT as int, LIMIT as int);
        }
        mul_fx(car.top_speed, car.idle_accel_ratio)
    };
    if input <= 0 {
        return None;
    }
    proof {
        lemma_mul_within(car.top_speed as int, car.idle_accel_ratio as int, LIMIT as int, LIMIT as int);
        lemma_div_within(car.top_speed * car.idle_accel_ratio, SCALE as int, LIMIT * LIMIT);
    }
    let speed = chassis_forward_speed(state);
    let sense: i8 = if controls.throttle {
        1
    } else if controls.brake {
        -1
    } else if speed > 0 {
        -1
    } else if speed < 0 {
        1
    } else {
        0
    };
    let power = evaluate_power_curve(chassis_normalized_speed(state, car.top_speed));
    proof {
        lemma_power_curve_range(normalized_speed(*state, car.top_speed as int));
        lemma_mul_within(power as int, input as int, SCALE as int, LIMIT * LIMIT as int);
        lemma_div_within(power * input, SCALE as int, SCALE * (LIMIT * LIMIT));
    }
    let available = mul_fx(power, input);
    proof {
        lemma_scale_within(state.pose.back@, available as int, SCALE as int, LIMIT * LIMIT as int + 1);
    }
    let push = state.pose.back.scale(available);
    let force = if sense > 0 {
        push.neg()
    } else if sense < 0 {
        push
    } else {
        Vec3::zero()
    };
    Some(ForceContribution { force, point: hit.point })
}

/// On `[0, SCALE]` the power curve stays within `[0, SCALE]`.
pub proof fn lemma_power_curve_range(s: int)
    requires
        0 <= s <= SCALE,
    ensures
        0 <= power_curve(s) <= SCALE,
{
    if s <= TEEING_OFF {
        let t = fdiv(s, TEEING_OFF as int);
        assert(0 <= t <= SCALE);
        assert(0 <= fmul(SCALE - LAUNCH_POWER, t) <= SCALE - LAUNCH_POWER) by (nonlinear_arith)
            requires
                0 <= t <= SCALE,
        {
        }
    } else if s <= NEAR_LIMIT {
    } else if s != SCALE {
        let t = fdiv(s - NEAR_LIMIT, SCALE - NEAR_LIMIT);
        assert(0 <= t <= SCALE);
        assert(TAPER_POWER - SCALE <= fmul(TAPER_POWER - SCALE, t) <= 0) by (nonlinear_arith)
            requires
                0 <= t <= SCALE,
        {
        }
    }
}

} // verus!
