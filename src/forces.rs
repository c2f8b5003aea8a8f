//! Summing the wheels' forces into one force and torque, and the per-tick
//! pipeline that produces them.
use vstd::prelude::*;

use crate::car_acceleration::{car_acceleration, drive_force, is_driving};
use crate::car_steering::{grip_force, update_car_steering};
use crate::car_suspension::{
    suspension_force, update_car_suspension, CarPhysics, ForceContribution, WheelContact,
    FORCE_LIMIT,
};
use crate::car_wheel_control::{
    steer, steering_rate, update_car_wheel_control, update_car_wheel_rotation_speed,
};
use crate::chassis::ChassisState;
use crate::controls::Controls;
use crate::fixed::{floor_div, lemma_mul_within, tdiv, within, LIMIT, SCALE};
use crate::vector::{add3, cross3, sub3, within3, zero3, IVec3, Vec3};

verus! {

/// Bound on the magnitude of a torque component from one contribution.
pub const TORQUE_LIMIT: i128 = 5_000_000_000_000_000_000_000_000_000_000_000;

/// Most wheels that one tick accepts.
pub const MAX_WHEELS: usize = 64;

/// Most contributions that an accumulator accepts: three per wheel.
pub const MAX_CONTRIBUTIONS: usize = 192;

/// A total force and torque, in that order.
pub type Totals = (IVec3, IVec3);

/// A force and the point where it acts, in that order.
pub type Push = (IVec3, IVec3);

/// The torque about `center` of a force acting at a point.
pub open spec fn torque_about(push: Push, center: IVec3) -> IVec3 {
    cross3(sub3(push.1, center), push.0)
}

/// Adds a contribution, if there is one, to the totals.
pub open spec fn accumulate(totals: Totals, push: Option<Push>, center: IVec3) -> Totals {
    match push {
        Some(p) => (add3(totals.0, p.0), add3(totals.1, torque_about(p, center))),
        None => totals,
    }
}

pub open spec fn push_of(c: Option<ForceContribution>) -> Option<Push> {
    match c {
        Some(c) => Some((c.force@, c.point@)),
        None => None,
    }
}

/// `(p * q - r * s) / SCALE`, rounded toward zero, for arms `p`, `r` and
/// forces `q`, `s`, computed without forming the full products.
fn cross_term(p: i128, q: i128, r: i128, s: i128) -> (res: i128)
    requires
        within(p as int, 2 * LIMIT as int),
        within(r as int, 2 * LIMIT as int),
        within(q as int, FORCE_LIMIT as int),
        within(s as int, FORCE_LIMIT as int),
    ensures
        res == tdiv(p * q - r * s, SCALE as int),
{
    let qh = floor_div(q, SCALE);
    let sh = floor_div(s, SCALE);
    let ql = q - qh * SCALE;
    let sl = s - sh * SCALE;
    proof {
        assert(0 <= ql < SCALE && 0 <= sl < SCALE);
        crate::fixed::lemma_div_within(q as int, SCALE as int, FORCE_LIMIT as int);
        crate::fixed::lemma_div_within(s as int, SCALE as int, FORCE_LIMIT as int);
        assert(FORCE_LIMIT as int / (SCALE as int) + 1 == 1_000_000_000_000_000_000_000_001);
        lemma_mul_within(p as int, qh as int, 2 * LIMIT as int, 1_000_000_000_000_000_000_000_001);
        lemma_mul_within(r as int, sh as int, 2 * LIMIT as int, 1_000_000_000_000_000_000_000_001);
        lemma_mul_within(p as int, ql as int, 2 * LIMIT as int, SCALE as int);
        lemma_mul_within(r as int, sl as int, 2 * LIMIT as int, SCALE as int);
    }
    let hi = p * qh - r * sh;
    let lo = p * ql - r * sl;
    let lo_quotient = floor_div(lo, SCALE);
    let quotient = hi + lo_quotient;
    let remainder = lo - lo_quotient * SCALE;
    proof {
        assert(p * q - r * s == SCALE * hi + lo) by (nonlinear_arith)
            requires
                q == qh * SCALE + ql,
                s == sh * SCALE + sl,
                hi == p * qh - r * sh,
                lo == p * ql - r * sl,
        {
        }
        assert(0 <= remainder < SCALE);
        let x = p * q - r * s;
        assert(x == SCALE * quotient + remainder);
        assert(tdiv(x, SCALE as int) == if quotient < 0 && remainder != 0 {
            quotient + 1
        } else {
            quotient as int
        }) by (nonlinear_arith)
            requires
                x == 1_000_000 * quotient + remainder,
                0 <= remainder < 1_000_000,
                SCALE == 1_000_000,
        {
        }
    }
    if quotient < 0 && remainder != 0 {
        quotient + 1
    } else {
        quotient
    }
}

/// The running total of one tick's forces and their torques.
#[derive(Clone, Copy, Debug, PartialEq, Eq)]
pub struct ForceAccumulator {
    pub force: Vec3,
    pub torque: Vec3,
    /// How many contributions have been added.
    pub contributions: usize,
}

impl ForceAccumulator {
    pub open spec fn totals(&self) -> Totals {
        (self.force@, self.torque@)
    }

    pub open spec fn wf(&self) -> bool {
        &&& self.contributions <= MAX_CONTRIBUTIONS
        &&& within3(self.force@, self.contributions * FORCE_LIMIT)
        &&& within3(self.torque@, self.contributions * TORQUE_LIMIT)
    }

    /// No force and no torque.
    pub fn new() -> (r: ForceAccumulator)
        ensures
            r.wf(),
            r.totals() == (zero3(), zero3()),
            r.contributions == 0,
    {
        ForceAccumulator { force: Vec3::zero(), torque: Vec3::zero(), contributions: 0 }
    }

    /// Adds `c`, if there is one, with its torque about `center_of_mass`.
    pub fn add(&mut self, c: &Option<ForceContribution>, center_of_mass: &Vec3)
        requires
            old(self).wf(),
            old(self).contributions < MAX_CONTRIBUTIONS,
            within3(center_of_mass@, LIMIT as int),
            c matches Some(c) ==> c.wf(),
        ensures
            final(self).wf(),
            final(self).totals() == accumulate(old(self).totals(), push_of(*c), center_of_mass@),
            final(self).contributions == old(self).contributions + 1,
    {
        let n = self.contributions;
        proof {
            assert(n * FORCE_LIMIT + FORCE_LIMIT == (n + 1) * FORCE_LIMIT) by (nonlinear_arith);
            assert(n * TORQUE_LIMIT + TORQUE_LIMIT == (n + 1) * TORQUE_LIMIT) by (nonlinear_arith);
            assert(0 <= n * FORCE_LIMIT <= 191 * FORCE_LIMIT) by (nonlinear_arith)
                requires
                    0 <= n <= 191,
            {
            }
            assert(0 <= n * TORQUE_LIMIT <= 191 * TORQUE_LIMIT) by (nonlinear_arith)
                requires
                    0 <= n <= 191,
            {
            }
        }
        if let Some(c) = c {
            let arm = c.point.sub(center_of_mass);
            let f = c.force;
            let torque = Vec3::new(
                cross_term(arm.y, f.z, arm.z, f.y),
                cross_term(arm.z, f.x, arm.x, f.z),
                cross_term(arm.x, f.y, arm.y, f.x),
            );
            proof {
                assert(torque@ == cross3(arm@, f@));
                crate::vector::lemma_cross_within(arm@, f@, 2 * LIMIT as int, FORCE_LIMIT as int);
            }
            self.force = self.force.add(&f);
            self.torque = self.torque.add(&torque);
        }
        self.contributions = n + 1;
    }
}

/// The suspension, grip and drive contributions of one wheel, in that order.
pub open spec fn wheel_pushes(
    car: CarPhysics,
    state: ChassisState,
    controls: Controls,
    contact: WheelContact,
    dt: int,
) -> (Option<Push>, Option<Push>, Option<Push>) {
    match contact.hit {
        None => (None, None, None),
        Some(h) => (
            Some((suspension_force(car, state, h), h.point@)),
            Some((grip_force(car, state, contact.wheel, h, dt), h.point@)),
            if is_driving(car, controls, contact) {
                Some((drive_force(car, state, controls), h.point@))
            } else {
                None
            },
        ),
    }
}

/// `totals` with one wheel's contributions added.
pub open spec fn add_wheel(
    totals: Totals,
    car: CarPhysics,
    state: ChassisState,
    controls: Controls,
    contact: WheelContact,
    dt: int,
) -> Totals {
    let pushes = wheel_pushes(car, state, controls, contact, dt);
    let com = state.center_of_mass@;
    accumulate(accumulate(accumulate(totals, pushes.0, com), pushes.1, com), pushes.2, com)
}

/// The totals of the wheels' contributions, added wheel by wheel.
pub open spec fn wheels_totals(
    car: CarPhysics,
    state: ChassisState,
    controls: Controls,
    wheels: Seq<WheelContact>,
    dt: int,
) -> Totals
    decreases wheels.len(),
{
    if wheels.len() == 0 {
        (zero3(), zero3())
    } else {
        add_wheel(
            wheels_totals(car, state, controls, wheels.drop_last(), dt),
            car,
            state,
            controls,
            wheels.last(),
            dt,
        )
    }
}

/// The vehicle after the tick's steering update: the rate follows the
/// speed, then the angle moves at that rate.
pub open spec fn steered(car: CarPhysics, state: ChassisState, controls: Controls, dt: int) -> CarPhysics {
    let rate = steering_rate(state, car.top_speed as int);
    CarPhysics {
        wheel_rotation_speed: rate as i128,
        wheel_rotation: steer(
            car.wheel_rotation as int,
            rate,
            dt,
            controls,
            car.steering_lower_bound as int,
            car.steering_upper_bound as int,
        ) as i128,
        ..car
    }
}

/// One tick: updates the steering, then sums each wheel's suspension, grip
/// and drive forces (all computed with the updated steering angle) into the
/// force and torque for the dynamics engine.
pub fn simulate_tick(
    car: &mut CarPhysics,
    state: &ChassisState,
    controls: &Controls,
    wheels: &Vec<WheelContact>,
    dt: i128,
) -> (r: ForceAccumulator)
    requires
        old(car).wf(),
        state.wf(),
        wheels.len() <= MAX_WHEELS,
        forall|i: int| 0 <= i < wheels.len() ==> (#[trigger] wheels[i]).wf(),
        0 < dt <= LIMIT,
    ensures
        *final(car) == steered(*old(car), *state, *controls, dt as int),
        final(car).wf(),
        r.totals() == wheels_totals(*final(car), *state, *controls, wheels@, dt as int),
        r.wf(),
{
    update_car_wheel_rotation_speed(car, state);
    update_car_wheel_control(car, controls, dt);
    let mut acc = ForceAccumulator::new();
    let mut i: usize = 0;
    while i < wheels.len()
        invariant
            car.wf(),
            state.wf(),
            0 < dt <= LIMIT,
            wheels.len() <= MAX_WHEELS,
            forall|j: int| 0 <= j < wheels.len() ==> (#[trigger] wheels[j]).wf(),
            0 <= i <= wheels.len(),
            acc.wf(),
            acc.contributions == 3 * i,
            acc.totals() == wheels_totals(*car, *state, *controls, wheels@.take(i as int), dt as int),
        decreases wheels.len() - i,
    {
        let contact = &wheels[i];
        let suspension = update_car_suspension(car, state, contact);
        let grip = update_car_steering(car, state, contact, dt);
        let drive = car_acceleration(car, state, controls, contact);
        let ghost before = acc.totals();
        acc.add(&suspension, &state.center_of_mass);
        acc.add(&grip, &state.center_of_mass);
        acc.add(&drive, &state.center_of_mass);
        proof {
            let next = wheels@.take(i + 1);
            assert(next.drop_last() =~= wheels@.take(i as int));
            assert(next.last() == wheels@[i as int]);
            assert(push_of(suspension) == wheel_pushes(*car, *state, *controls, *contact, dt as int).0);
            assert(push_of(grip) == wheel_pushes(*car, *state, *controls, *contact, dt as int).1);
            assert(push_of(drive) == wheel_pushes(*car, *state, *controls, *contact, dt as int).2);
        }
        i = i + 1;
    }
    assert(wheels@.take(wheels.len() as int) =~= wheels@);
    acc
}

} // verus!
