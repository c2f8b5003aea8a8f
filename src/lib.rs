//! An arcade raycast-vehicle force model in exact fixed-point arithmetic.
//!
//! Every quantity is an `i128` counting millionths of a unit (see
//! [`fixed::SCALE`]). Each tick the model turns the chassis state, the
//! control input and four wheel ray hits into suspension, grip and drive
//! forces, and sums them into one force and torque for a rigid-body engine.
pub mod fixed;
pub mod vector;
pub mod chassis;
pub mod controls;
pub mod car_suspension;
pub mod car_steering;
pub mod car_acceleration;
pub mod car_wheel_control;
pub mod car_camera;
pub mod forces;
pub mod lemmas;
