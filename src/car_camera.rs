//! The chase camera's position.
use vstd::prelude::*;

use crate::fixed::{fmul, lemma_div_within, lemma_mul_within, mul_fx, within, LIMIT, SCALE};
use crate::vector::{add3, ivec, scale3, sub3, within3, IVec3, Vec3};

verus! {

/// How high above the car the camera aims to be.
pub const CAMERA_HEIGHT: i128 = 3_000_000;

/// How the camera trails the car.
#[derive(Clone, Copy, Debug, PartialEq, Eq)]
pub struct CameraFollow {
    /// Share of the way to its target that the camera covers per second.
    pub camera_translation_speed: i128,
    /// How far behind the car (along `+z`) the camera aims to be.
    pub distance_behind: i128,
}

/// Where the camera aims to be: behind the car along `+z`, and above it.
pub open spec fn camera_target(follow: CameraFollow, car: IVec3) -> IVec3 {
    add3(car, ivec(0, CAMERA_HEIGHT as int, follow.distance_behind as int))
}

/// The camera after a tick of `dt`: it moves from `camera` toward its target
/// by `speed * dt` of the distance.
pub open spec fn camera_step(follow: CameraFollow, camera: IVec3, car: IVec3, dt: int) -> IVec3 {
    let target = camera_target(follow, car);
    let t = fmul(follow.camera_translation_speed as int, dt);
    add3(camera, scale3(sub3(target, camera), t))
}

/// The camera's next position; the caller then pulls it in front of any
/// obstacle between it and the car.
pub fn camera_follow(follow: &CameraFollow, camera: &Vec3, car: &Vec3, dt: i128) -> (r: Vec3)
    requires
        0 <= follow.camera_translation_speed <= LIMIT,
        within(follow.distance_behind as int, LIMIT as int),
        within3(camera@, LIMIT as int),
        within3(car@, LIMIT as int),
        0 < dt <= LIMIT,
    ensures
        r@ == camera_step(*follow, camera@, car@, dt as int),
{
    let target = car.add(&Vec3::new(0, CAMERA_HEIGHT, follow.distance_behind));
    proof {
        lemma_mul_within(follow.camera_translation_speed as int, dt as int, LIMIT as int, LIMIT as int);
        lemma_div_within(follow.camera_translation_speed * dt, SCALE as int, LIMIT * LIMIT);
    }
    let t = mul_fx(follow.camera_translation_speed, dt);
    let gap = target.sub(camera);
    proof {
        crate::vector::lemma_scale_within(gap@, t as int, 3 * LIMIT as int + CAMERA_HEIGHT, LIMIT * LIMIT / SCALE as int + 1);
    }
    camera.add(&gap.scale(t))
}

} // verus!
