//! Laws of the vehicle model, stated over its spec functions.
use vstd::prelude::*;

use crate::car_acceleration::{available_force, drive_force, power_curve, LAUNCH_POWER, NEAR_LIMIT, TAPER_POWER, TEEING_OFF};
use crate::car_steering::{grip_factor, grip_force, grip_magnitude, steering_direction};
use crate::car_suspension::{suspension_magnitude, CarPhysics, RayHit, WheelContact};
use crate::car_wheel_control::{
    steer, steering_rate, MAX_STEERING_RATE, MIN_STEERING_RATE, STEERING_FADE_GAIN,
};
use crate::chassis::{normalized_speed, point_velocity, CarWheel, ChassisFrame, ChassisState};
use crate::controls::Controls;
use crate::fixed::{abs, fclamp, fdiv, fmul, within, HALF, SCALE};
use crate::forces::{add_wheel, steered, torque_about, wheel_pushes, Totals};
use crate::vector::{dot3, lemma_cross_neg, neg3, scale3, sub3, zero3, IVec3};

verus! {

/// An airborne wheel contributes no suspension, grip or drive force, so
/// adding it leaves the totals as they were.
pub proof fn lemma_airborne_wheel_adds_nothing(
    totals: Totals,
    car: CarPhysics,
    state: ChassisState,
    controls: Controls,
    contact: WheelContact,
    dt: int,
)
    requires
        contact.hit is None,
    ensures
        wheel_pushes(car, state, controls, contact, dt) == (
            None::<(IVec3, IVec3)>,
            None::<(IVec3, IVec3)>,
            None::<(IVec3, IVec3)>,
        ),
        add_wheel(totals, car, state, controls, contact, dt) == totals,
{
}

/// The steering rate lies between its minimum and maximum.
pub proof fn lemma_steering_rate_range(state: ChassisState, top_speed: int)
    ensures
        MIN_STEERING_RATE <= steering_rate(state, top_speed) <= MAX_STEERING_RATE,
{
    let faded = fclamp(normalized_speed(state, top_speed) * STEERING_FADE_GAIN, 0, SCALE as int);
    let t = SCALE - faded;
    assert(0 <= fmul(MAX_STEERING_RATE - MIN_STEERING_RATE, t) <= MAX_STEERING_RATE
        - MIN_STEERING_RATE) by (nonlinear_arith)
        requires
            0 <= t <= SCALE,
    {
    }
}

/// A steering tick ends within `[lower, upper]`, whatever the input.
pub proof fn lemma_steer_within_bounds(
    angle: int,
    rate: int,
    dt: int,
    controls: Controls,
    lower: int,
    upper: int,
)
    requires
        lower <= upper,
    ensures
        lower <= steer(angle, rate, dt, controls, lower, upper) <= upper,
{
}

/// The tick's steering update keeps the vehicle well formed.
pub proof fn lemma_steered_wf(car: CarPhysics, state: ChassisState, controls: Controls, dt: int)
    requires
        car.wf(),
    ensures
        steered(car, state, controls, dt).wf(),
{
    let rate = steering_rate(state, car.top_speed as int);
    lemma_steering_rate_range(state, car.top_speed as int);
    lemma_steer_within_bounds(
        car.wheel_rotation as int,
        rate,
        dt,
        controls,
        car.steering_lower_bound as int,
        car.steering_upper_bound as int,
    );
}

/// The vehicle after a sequence of ticks, each given as the chassis state,
/// the controls and the tick's duration.
pub open spec fn steer_through(car: CarPhysics, ticks: Seq<(ChassisState, Controls, int)>) -> CarPhysics
    decreases ticks.len(),
{
    if ticks.len() == 0 {
        car
    } else {
        let (state, controls, dt) = ticks.last();
        steered(steer_through(car, ticks.drop_last()), state, controls, dt)
    }
}

/// After any sequence of ticks, with any input, the steering angle lies
/// within the vehicle's steering bounds.
pub proof fn lemma_steering_stays_in_bounds(car: CarPhysics, ticks: Seq<(ChassisState, Controls, int)>)
    requires
        car.wf(),
    ensures
        steer_through(car, ticks).wf(),
        steer_through(car, ticks).steering_lower_bound == car.steering_lower_bound,
        steer_through(car, ticks).steering_upper_bound == car.steering_upper_bound,
        car.steering_lower_bound <= steer_through(car, ticks).wheel_rotation
            <= car.steering_upper_bound,
    decreases ticks.len(),
{
    if ticks.len() > 0 {
        lemma_steering_stays_in_bounds(car, ticks.drop_last());
        let (state, controls, dt) = ticks.last();
        lemma_steered_wf(steer_through(car, ticks.drop_last()), state, controls, dt);
    }
}

/// With no steering input, a tick moves the angle toward the centre without
/// passing it, and reaches the centre once it is within one step of it.
pub proof fn lemma_centering_never_overshoots(
    angle: int,
    rate: int,
    dt: int,
    controls: Controls,
    lower: int,
    upper: int,
)
    requires
        !controls.steer_left,
        !controls.steer_right,
        0 <= rate,
        0 < dt,
        lower <= HALF <= upper,
        lower <= angle <= upper,
    ensures
        ({
            let next = steer(angle, rate, dt, controls, lower, upper);
            &&& angle <= HALF ==> angle <= next <= HALF
            &&& angle >= HALF ==> HALF <= next <= angle
            &&& abs(angle - HALF) <= fmul(rate, dt) ==> next == HALF
        }),
{
    assert(fmul(rate, dt) >= 0) by (nonlinear_arith)
        requires
            0 <= rate,
            0 < dt,
    {
    }
}

/// Over ticks with no steering input the angle approaches the centre: no
/// tick moves it further away or past it.
pub proof fn lemma_centering_through_ticks(car: CarPhysics, ticks: Seq<(ChassisState, Controls, int)>)
    requires
        car.wf(),
        forall|i: int|
            0 <= i < ticks.len() ==> {
                let (_, controls, dt) = #[trigger] ticks[i];
                !controls.steer_left && !controls.steer_right && dt > 0
            },
    ensures
        forall|n: int|
            0 <= n < ticks.len() ==> {
                let before = steer_through(car, ticks.take(n)).wheel_rotation;
                let after = #[trigger] steer_through(car, ticks.take(n + 1)).wheel_rotation;
                &&& before <= HALF ==> before <= after <= HALF
                &&& before >= HALF ==> HALF <= after <= before
            },
{
    assert forall|n: int| 0 <= n < ticks.len() implies {
        let before = steer_through(car, ticks.take(n)).wheel_rotation;
        let after = #[trigger] steer_through(car, ticks.take(n + 1)).wheel_rotation;
        &&& before <= HALF ==> before <= after <= HALF
        &&& before >= HALF ==> HALF <= after <= before
    } by {
        let prefix = steer_through(car, ticks.take(n));
        lemma_steering_stays_in_bounds(car, ticks.take(n));
        assert(ticks.take(n + 1).drop_last() =~= ticks.take(n));
        assert(ticks.take(n + 1).last() == ticks[n]);
        let (state, controls, dt) = ticks[n];
        let rate = steering_rate(state, prefix.top_speed as int);
        lemma_steering_rate_range(state, prefix.top_speed as int);
        lemma_centering_never_overshoots(
            prefix.wheel_rotation as int,
            rate,
            dt,
            controls,
            prefix.steering_lower_bound as int,
            prefix.steering_upper_bound as int,
        );
    }
}

/// The controller's angle after a sequence of ticks, each given as the
/// steering rate, the tick's duration and the controls.
pub open spec fn steer_ticks(angle: int, ticks: Seq<(int, int, Controls)>, lower: int, upper: int) -> int
    decreases ticks.len(),
{
    if ticks.len() == 0 {
        angle
    } else {
        let (rate, dt, controls) = ticks.last();
        steer(steer_ticks(angle, ticks.drop_last(), lower, upper), rate, dt, controls, lower, upper)
    }
}

/// The sum of the ticks' steps `rate * dt`.
pub open spec fn step_total(ticks: Seq<(int, int, Controls)>) -> int
    decreases ticks.len(),
{
    if ticks.len() == 0 {
        0
    } else {
        step_total(ticks.drop_last()) + fmul(ticks.last().0, ticks.last().1)
    }
}

/// Whatever the input, rates and durations, the controller keeps an angle
/// that starts within `[lower, upper]` there.
pub proof fn lemma_steer_ticks_in_bounds(angle: int, ticks: Seq<(int, int, Controls)>, lower: int, upper: int)
    requires
        lower <= angle <= upper,
    ensures
        lower <= steer_ticks(angle, ticks, lower, upper) <= upper,
    decreases ticks.len(),
{
    if ticks.len() > 0 {
        lemma_steer_ticks_in_bounds(angle, ticks.drop_last(), lower, upper);
    }
}

/// Holding right from the centre moves the angle by exactly the sum of the
/// ticks' steps, as long as that stays within the upper bound.
pub proof fn lemma_steering_right_accumulates(ticks: Seq<(int, int, Controls)>, lower: int, upper: int)
    requires
        lower <= HALF <= upper,
        forall|i: int|
            0 <= i < ticks.len() ==> {
                let (rate, dt, controls) = #[trigger] ticks[i];
                controls.steer_right && !controls.steer_left && rate >= 0 && dt > 0
            },
        HALF + step_total(ticks) <= upper,
    ensures
        steer_ticks(HALF as int, ticks, lower, upper) == HALF + step_total(ticks),
        step_total(ticks) >= 0,
    decreases ticks.len(),
{
    if ticks.len() > 0 {
        let prefix = ticks.drop_last();
        let (rate, dt, controls) = ticks.last();
        assert(ticks.last() == ticks[ticks.len() - 1]);
        assert(fmul(rate, dt) >= 0) by (nonlinear_arith)
            requires
                rate >= 0,
                dt > 0,
        {
        }
        assert forall|i: int| 0 <= i < prefix.len() implies {
            let (rate, dt, controls) = #[trigger] prefix[i];
            controls.steer_right && !controls.steer_left && rate >= 0 && dt > 0
        } by {
            assert(prefix[i] == ticks[i]);
        }
        lemma_steering_right_accumulates(prefix, lower, upper);
    }
}

/// With no steering input and every step at least `min_step`, the angle
/// closes on the centre by at least `min_step` per tick until it reaches it,
/// and then stays there: once `len * min_step` covers the starting distance
/// the angle is exactly `HALF`.
pub proof fn lemma_centering_reaches_centre(
    angle: int,
    ticks: Seq<(int, int, Controls)>,
    lower: int,
    upper: int,
    min_step: int,
)
    requires
        lower <= HALF <= upper,
        lower <= angle <= upper,
        min_step > 0,
        forall|i: int|
            0 <= i < ticks.len() ==> {
                let (rate, dt, controls) = #[trigger] ticks[i];
                !controls.steer_right && !controls.steer_left && rate >= 0 && dt > 0 && fmul(rate, dt)
                    >= min_step
            },
    ensures
        abs(steer_ticks(angle, ticks, lower, upper) - HALF) <= if abs(angle - HALF) > ticks.len()
            * min_step {
            abs(angle - HALF) - ticks.len() * min_step
        } else {
            0
        },
        ticks.len() * min_step >= abs(angle - HALF) ==> steer_ticks(angle, ticks, lower, upper)
            == HALF,
    decreases ticks.len(),
{
    if ticks.len() > 0 {
        let prefix = ticks.drop_last();
        let n = ticks.len() as int;
        assert forall|i: int| 0 <= i < prefix.len() implies {
            let (rate, dt, controls) = #[trigger] prefix[i];
            !controls.steer_right && !controls.steer_left && rate >= 0 && dt > 0 && fmul(rate, dt)
                >= min_step
        } by {
            assert(prefix[i] == ticks[i]);
        }
        lemma_centering_reaches_centre(angle, prefix, lower, upper, min_step);
        lemma_steer_ticks_in_bounds(angle, prefix, lower, upper);
        assert(ticks.last() == ticks[n - 1]);
        let (rate, dt, controls) = ticks.last();
        let a = steer_ticks(angle, prefix, lower, upper);
        lemma_centering_never_overshoots(a, rate, dt, controls, lower, upper);
        assert((n - 1) * min_step + min_step == n * min_step) by (nonlinear_arith);
    }
}

/// The power curve gives half power at a standstill, full power at both ends
/// of its flat band, and none at top speed.
pub proof fn lemma_power_curve_landmarks()
    ensures
        power_curve(0) == LAUNCH_POWER,
        power_curve(TEEING_OFF as int) == SCALE,
        power_curve(NEAR_LIMIT as int) == SCALE,
        power_curve(SCALE as int) == 0,
{
}

/// Strictly between `NEAR_LIMIT` and top speed the power curve lies strictly
/// between `TAPER_POWER` and full power, and strictly decreases.
pub proof fn lemma_power_curve_taper(s1: int, s2: int)
    requires
        NEAR_LIMIT < s1 < s2 < SCALE,
    ensures
        TAPER_POWER < power_curve(s2) < power_curve(s1) < SCALE,
{
}

/// On the launch ramp the power curve follows `LAUNCH_POWER + 1.25 s` to
/// within a rounding step and a half.
proof fn lemma_power_ramp(s: int)
    requires
        0 <= s <= TEEING_OFF,
    ensures
        4 * power_curve(s) <= 4 * LAUNCH_POWER + 5 * s,
        4 * power_curve(s) > 4 * LAUNCH_POWER + 5 * s - 6,
{
    let t = fdiv(s, TEEING_OFF as int);
    assert(2 * t <= 5 * s && 2 * t > 5 * s - 2) by (nonlinear_arith)
        requires
            t == (s * 1_000_000) / 400_000,
    {
    }
    let half = fmul(SCALE - LAUNCH_POWER, t);
    assert(2 * half <= t && 2 * half > t - 2) by (nonlinear_arith)
        requires
            half == (500_000 * t) / 1_000_000,
    {
    }
}

/// On the taper the power curve follows `SCALE - 2.8 (s - NEAR_LIMIT)` to
/// within one rounding step.
proof fn lemma_power_taper(s: int)
    requires
        NEAR_LIMIT < s < SCALE,
    ensures
        5 * power_curve(s) <= 5 * SCALE - 14 * (s - NEAR_LIMIT),
        5 * power_curve(s) > 5 * SCALE - 14 * (s - NEAR_LIMIT) - 5,
{
    let t = fdiv(s - NEAR_LIMIT, SCALE - NEAR_LIMIT);
    assert(t == 4 * (s - NEAR_LIMIT)) by (nonlinear_arith)
        requires
            t == ((s - 750_000) * 1_000_000) / 250_000,
    {
    }
    let drop = fmul(TAPER_POWER - SCALE, t);
    assert(5 * drop <= -14 * (s - NEAR_LIMIT) && 5 * drop > -14 * (s - NEAR_LIMIT) - 5) by (nonlinear_arith)
        requires
            drop == (-700_000 * t) / 1_000_000,
            t == 4 * (s - 750_000),
    {
    }
}

/// Below top speed the power curve has no jump: one step of speed changes it
/// by at most three steps. The one jump is at top speed.
pub proof fn lemma_power_curve_steps_are_small(s: int)
    requires
        0 <= s,
        s + 1 < SCALE,
    ensures
        within(power_curve(s + 1) - power_curve(s), 3),
{
    if s + 1 <= TEEING_OFF {
        lemma_power_ramp(s);
        lemma_power_ramp(s + 1);
    } else if s == TEEING_OFF {
        lemma_power_ramp(s);
    } else if s < NEAR_LIMIT {
    } else if s == NEAR_LIMIT {
        lemma_power_taper(s + 1);
    } else {
        lemma_power_taper(s);
        lemma_power_taper(s + 1);
    }
}

/// On the same state, the brake pushes with exactly the opposite force of
/// the throttle, and so with exactly the opposite torque about any point.
pub proof fn lemma_brake_mirrors_throttle(
    car: CarPhysics,
    state: ChassisState,
    on_throttle: Controls,
    on_brake: Controls,
    point: IVec3,
    center: IVec3,
)
    requires
        on_throttle.throttle,
        !on_brake.throttle,
        on_brake.brake,
    ensures
        drive_force(car, state, on_throttle) == neg3(drive_force(car, state, on_brake)),
        torque_about((drive_force(car, state, on_throttle), point), center) == neg3(
            torque_about((drive_force(car, state, on_brake), point), center),
        ),
{
    assert(available_force(car, state, on_throttle) == available_force(car, state, on_brake));
    lemma_cross_neg(sub3(point, center), drive_force(car, state, on_brake));
}

/// The suspension pushes with no force at zero compression and zero spring
/// velocity.
pub proof fn lemma_suspension_rest(strength: int, damping: int)
    ensures
        suspension_magnitude(0, 0, strength, damping) == 0,
{
}

/// For a fixed spring velocity, more compression never gives less force.
pub proof fn lemma_suspension_monotone(o1: int, o2: int, spring_velocity: int, strength: int, damping: int)
    requires
        o1 <= o2,
        0 <= strength,
    ensures
        suspension_magnitude(o1, spring_velocity, strength, damping) <= suspension_magnitude(
            o2,
            spring_velocity,
            strength,
            damping,
        ),
{
    assert(o1 * strength <= o2 * strength) by (nonlinear_arith)
        requires
            o1 <= o2,
            0 <= strength,
    {
    }
}

/// The grip force acts along the wheel's steering direction, and vanishes
/// when the contact point does not move along that direction.
pub proof fn lemma_grip_along_steering_direction(
    car: CarPhysics,
    state: ChassisState,
    wheel: CarWheel,
    hit: RayHit,
    dt: int,
)
    requires
        dt > 0,
    ensures
        ({
            let dir = steering_direction(state.pose, wheel, car.wheel_rotation as int);
            let slip = dot3(dir, point_velocity(state, hit.point@));
            &&& exists|k: int| grip_force(car, state, wheel, hit, dt) == #[trigger] scale3(dir, k)
            &&& slip == 0 ==> grip_force(car, state, wheel, hit, dt) == zero3()
        }),
{
    let dir = steering_direction(state.pose, wheel, car.wheel_rotation as int);
    let slip = dot3(dir, point_velocity(state, hit.point@));
    let grip = grip_factor(car, wheel, normalized_speed(state, car.top_speed as int));
    let k = grip_magnitude(slip, grip, car.tire_mass as int, dt);
    assert(grip_force(car, state, wheel, hit, dt) == scale3(dir, k));
    if slip == 0 {
        assert(fmul(slip, grip) == 0);
        assert(fdiv(0, dt) == 0) by (nonlinear_arith)
            requires
                dt > 0,
        {
        }
        assert(fmul(car.tire_mass as int, 0) == 0);
        assert(k == 0);
        assert(scale3(dir, 0) == zero3()) by {
            assert(dir.x * 0 == 0 && dir.y * 0 == 0 && dir.z * 0 == 0);
        }
    }
}

/// A back wheel's grip direction is the chassis's right axis, which is
/// square to the drive axis when the pose's right and back axes are.
pub proof fn lemma_back_grip_square_to_drive(frame: ChassisFrame, wheel: CarWheel, angle: int)
    requires
        !wheel.is_front(),
        frame.right.x * frame.back.x + frame.right.y * frame.back.y + frame.right.z * frame.back.z == 0,
    ensures
        steering_direction(frame, wheel, angle) == frame.right@,
        dot3(steering_direction(frame, wheel, angle), frame.forward()) == 0,
{
    let r = frame.right@;
    let f = frame.forward();
    assert(r.x * f.x + r.y * f.y + r.z * f.z == -(frame.right.x * frame.back.x + frame.right.y
        * frame.back.y + frame.right.z * frame.back.z)) by (nonlinear_arith)
        requires
            f.x == -frame.back.x,
            f.y == -frame.back.y,
            f.z == -frame.back.z,
            r.x == frame.right.x,
            r.y == frame.right.y,
            r.z == frame.right.z,
    {
    }
}

} // verus!
