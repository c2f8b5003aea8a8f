use raycast_car::car_acceleration::{car_acceleration, evaluate_power_curve};
use raycast_car::car_camera::{camera_follow, CameraFollow};
use raycast_car::car_steering::update_car_steering;
use raycast_car::car_suspension::{
    update_car_suspension, CarPhysics, DrivenWheels, ForceContribution, RayHit, WheelContact,
};
use raycast_car::car_wheel_control::{
    update_car_wheel_control, update_car_wheel_rotation_speed, update_car_wheels,
};
use raycast_car::chassis::{car_speed_kmh, wheel_mount_point, CarWheel, ChassisFrame, ChassisState};
use raycast_car::controls::Controls;
use raycast_car::fixed::{mul_fx, SCALE};
use raycast_car::forces::{simulate_tick, ForceAccumulator};
use raycast_car::vector::Vec3;

const ALL_WHEELS: [CarWheel; 4] =
    [CarWheel::FrontRight, CarWheel::FrontLeft, CarWheel::BackRight, CarWheel::BackLeft];

fn units(v: i128) -> i128 {
    v * SCALE
}

fn at_rest() -> ChassisState {
    ChassisState {
        pose: ChassisFrame::identity(),
        linear_velocity: Vec3::zero(),
        angular_velocity: Vec3::zero(),
        center_of_mass: Vec3::zero(),
    }
}

fn moving(velocity: Vec3) -> ChassisState {
    ChassisState { linear_velocity: velocity, ..at_rest() }
}

fn no_input() -> Controls {
    Controls::default()
}

fn throttle() -> Controls {
    Controls { throttle: true, ..Controls::default() }
}

/// A contact under each corner of a two-by-two square, one unit down.
fn contact_point(wheel: CarWheel) -> Vec3 {
    let x = if matches!(wheel, CarWheel::FrontRight | CarWheel::BackRight) { 1 } else { -1 };
    let z = if matches!(wheel, CarWheel::FrontRight | CarWheel::FrontLeft) { -1 } else { 1 };
    Vec3::new(units(x), units(-1), units(z))
}

fn grounded(wheel: CarWheel, time_of_impact: i128) -> WheelContact {
    WheelContact { wheel, hit: Some(RayHit { time_of_impact, point: contact_point(wheel) }) }
}

fn airborne(wheel: CarWheel) -> WheelContact {
    WheelContact { wheel, hit: None }
}

fn force_of(c: Option<ForceContribution>) -> Vec3 {
    c.expect("a contribution").force
}

#[test]
fn fixed_point_product_rounds_down() {
    assert_eq!(mul_fx(units(3), 500_000), 1_500_000);
    assert_eq!(mul_fx(-1, 1), -1);
    assert_eq!(mul_fx(1, 1), 0);
}

#[test]
fn power_curve_landmarks() {
    assert_eq!(evaluate_power_curve(0), 500_000);
    assert_eq!(evaluate_power_curve(400_000), SCALE);
    assert_eq!(evaluate_power_curve(750_000), SCALE);
    assert_eq!(evaluate_power_curve(SCALE), 0);
    assert_eq!(evaluate_power_curve(200_000), 750_000);
    assert_eq!(evaluate_power_curve(600_000), SCALE);
    assert_eq!(evaluate_power_curve(875_000), 650_000);
}

#[test]
fn power_curve_tapers_strictly_below_top_speed() {
    let mut previous = evaluate_power_curve(750_001);
    assert!(previous < SCALE);
    let mut s = 750_002;
    while s < SCALE {
        let p = evaluate_power_curve(s);
        assert!(p < previous);
        assert!(p > 300_000);
        previous = p;
        s += 997;
    }
    assert!(evaluate_power_curve(SCALE - 1) > 300_000);
}

#[test]
fn power_curve_has_no_jump_below_top_speed() {
    let mut s = 0;
    while s + 1 < SCALE {
        let step = evaluate_power_curve(s + 1) - evaluate_power_curve(s);
        assert!(-3 <= step && step <= 3, "jump at {s}");
        s += 1;
    }
}

#[test]
fn airborne_wheels_contribute_nothing() {
    let car = CarPhysics::default();
    let state = moving(Vec3::new(units(5), units(1), units(-20)));
    for wheel in ALL_WHEELS {
        let contact = airborne(wheel);
        assert_eq!(update_car_suspension(&car, &state, &contact), None);
        assert_eq!(update_car_steering(&car, &state, &contact, 10_000), None);
        assert_eq!(car_acceleration(&car, &state, &throttle(), &contact), None);
    }
    let mut car = car;
    let wheels: Vec<WheelContact> = ALL_WHEELS.iter().map(|w| airborne(*w)).collect();
    let totals = simulate_tick(&mut car, &state, &throttle(), &wheels, 10_000);
    assert_eq!(totals.force, Vec3::zero());
    assert_eq!(totals.torque, Vec3::zero());
    assert_eq!(totals.contributions, 12);
}

#[test]
fn steering_stays_within_bounds() {
    let mut car = CarPhysics::default();
    let right = Controls { steer_right: true, ..Controls::default() };
    let left = Controls { steer_left: true, ..Controls::default() };
    for _ in 0..100 {
        update_car_wheel_control(&mut car, &right, 50_000);
        assert!(200_000 <= car.wheel_rotation && car.wheel_rotation <= 800_000);
    }
    assert_eq!(car.wheel_rotation, 800_000);
    for _ in 0..100 {
        update_car_wheel_control(&mut car, &left, 50_000);
        assert!(200_000 <= car.wheel_rotation && car.wheel_rotation <= 800_000);
    }
    assert_eq!(car.wheel_rotation, 200_000);
    let both = Controls { steer_left: true, steer_right: true, ..Controls::default() };
    update_car_wheel_control(&mut car, &both, 50_000);
    assert_eq!(car.wheel_rotation, 200_000);
}

#[test]
fn steering_recentres_without_overshoot() {
    let mut car = CarPhysics { wheel_rotation: 700_000, ..CarPhysics::default() };
    update_car_wheel_control(&mut car, &no_input(), 100_000);
    assert_eq!(car.wheel_rotation, 550_000);
    update_car_wheel_control(&mut car, &no_input(), 100_000);
    assert_eq!(car.wheel_rotation, 500_000);
    update_car_wheel_control(&mut car, &no_input(), 100_000);
    assert_eq!(car.wheel_rotation, 500_000);

    let mut car = CarPhysics { wheel_rotation: 250_000, ..CarPhysics::default() };
    let mut previous = car.wheel_rotation;
    for _ in 0..20 {
        update_car_wheel_control(&mut car, &no_input(), 30_000);
        assert!(previous <= car.wheel_rotation && car.wheel_rotation <= 500_000);
        previous = car.wheel_rotation;
    }
    assert_eq!(car.wheel_rotation, 500_000);
}

#[test]
fn steering_rate_fades_with_speed() {
    let mut car = CarPhysics { wheel_rotation_speed: 0, ..CarPhysics::default() };
    update_car_wheel_rotation_speed(&mut car, &at_rest());
    assert_eq!(car.wheel_rotation_speed, 1_500_000);
    // a twentieth of top speed: halfway between the rates
    update_car_wheel_rotation_speed(&mut car, &moving(Vec3::new(0, 0, -units(35) / 2)));
    assert_eq!(car.wheel_rotation_speed, 800_000);
    update_car_wheel_rotation_speed(&mut car, &moving(Vec3::new(0, 0, units(35))));
    assert_eq!(car.wheel_rotation_speed, 100_000);
    update_car_wheel_rotation_speed(&mut car, &moving(Vec3::new(0, 0, -units(300))));
    assert_eq!(car.wheel_rotation_speed, 100_000);
}

#[test]
fn suspension_is_slack_at_full_extension_and_rest() {
    let car = CarPhysics::default();
    let contact = grounded(CarWheel::BackLeft, car.max_suspension);
    assert_eq!(force_of(update_car_suspension(&car, &at_rest(), &contact)), Vec3::zero());
}

#[test]
fn suspension_grows_with_compression() {
    let car = CarPhysics::default();
    let state = moving(Vec3::new(0, -units(1), 0));
    let mut previous = i128::MIN;
    let mut toi = car.max_suspension;
    while toi >= 0 {
        let f = force_of(update_car_suspension(&car, &state, &grounded(CarWheel::FrontLeft, toi)));
        assert_eq!(f.x, 0);
        assert_eq!(f.z, 0);
        assert!(f.y > previous);
        previous = f.y;
        toi -= 70_000;
    }
}

#[test]
fn suspension_damps_vertical_motion() {
    let car = CarPhysics::default();
    let falling = moving(Vec3::new(0, -units(1), 0));
    let f = force_of(update_car_suspension(&car, &falling, &grounded(CarWheel::FrontLeft, car.max_suspension)));
    // no compression; falling at one unit per second against a damping of 100
    assert_eq!(f, Vec3::new(0, units(100), 0));
}

#[test]
fn suspension_uses_the_point_velocity() {
    let car = CarPhysics::default();
    // spinning about the forward axis: the right side rises, the left falls
    let state = ChassisState { angular_velocity: Vec3::new(0, 0, units(1)), ..at_rest() };
    let toi = car.max_suspension;
    let right = force_of(update_car_suspension(&car, &state, &grounded(CarWheel::BackRight, toi)));
    let left = force_of(update_car_suspension(&car, &state, &grounded(CarWheel::BackLeft, toi)));
    assert_eq!(right, Vec3::new(0, -units(100), 0));
    assert_eq!(left, Vec3::new(0, units(100), 0));
}

#[test]
fn grip_vanishes_without_slip() {
    let car = CarPhysics::default();
    let state = moving(Vec3::new(0, 0, -units(10)));
    for wheel in ALL_WHEELS {
        let f = force_of(update_car_steering(&car, &state, &grounded(wheel, 350_000), 10_000));
        assert_eq!(f, Vec3::zero());
    }
}

#[test]
fn grip_opposes_sideways_slip() {
    let car = CarPhysics::default();
    let state = moving(Vec3::new(units(1), 0, 0));
    let f = force_of(update_car_steering(&car, &state, &grounded(CarWheel::BackRight, 350_000), 10_000));
    // tire mass 0.7 times the acceleration that removes 0.7 of the slip in 0.01 s
    assert_eq!(f, Vec3::new(-49_000_000, 0, 0));
    let front = force_of(update_car_steering(&car, &state, &grounded(CarWheel::FrontRight, 350_000), 10_000));
    assert_eq!(front, Vec3::new(-63_000_000, 0, 0));
}

#[test]
fn grip_follows_the_steering_direction() {
    let car = CarPhysics { wheel_rotation: 800_000, ..CarPhysics::default() };
    let state = moving(Vec3::new(units(1), 0, 0));
    let f = force_of(update_car_steering(&car, &state, &grounded(CarWheel::FrontLeft, 350_000), 10_000));
    // the axis has turned 60% of the way from right to back: (0.4, 0, 0.6)
    assert_eq!(f, Vec3::new(-10_080_000, 0, -15_120_000));
    assert_eq!(f.x * 600_000, f.z * 400_000);
    let back = force_of(update_car_steering(&car, &state, &grounded(CarWheel::BackLeft, 350_000), 10_000));
    assert_eq!(back.y, 0);
    assert_eq!(back.z, 0);
}

#[test]
fn grip_weakens_with_speed() {
    let car = CarPhysics::default();
    let slow = moving(Vec3::new(units(1), 0, 0));
    let fast = moving(Vec3::new(units(1), 0, -units(35)));
    let contact = grounded(CarWheel::BackRight, 350_000);
    let gentle = force_of(update_car_steering(&car, &fast, &contact, 10_000));
    let firm = force_of(update_car_steering(&car, &slow, &contact, 10_000));
    assert!(gentle.x < 0 && firm.x < gentle.x);
    // at a tenth of top speed the back grip has fallen from 0.7 halfway to 0.3
    assert_eq!(gentle, Vec3::new(-35_000_000, 0, 0));
}

#[test]
fn drive_pushes_forward_on_throttle() {
    let car = CarPhysics::default();
    let contact = grounded(CarWheel::BackLeft, 350_000);
    let f = force_of(car_acceleration(&car, &at_rest(), &throttle(), &contact));
    // half power at a standstill, times top speed
    assert_eq!(f, Vec3::new(0, 0, -175_000_000));
    let c = car_acceleration(&car, &at_rest(), &throttle(), &contact).unwrap();
    assert_eq!(c.point, contact_point(CarWheel::BackLeft));
}

#[test]
fn drive_pushes_back_on_brake() {
    let car = CarPhysics::default();
    let brake = Controls { brake: true, ..Controls::default() };
    let f = force_of(car_acceleration(&car, &at_rest(), &brake, &grounded(CarWheel::BackRight, 350_000)));
    assert_eq!(f, Vec3::new(0, 0, 175_000_000));
}

#[test]
fn drive_drags_against_motion_without_input() {
    let car = CarPhysics::default();
    let contact = grounded(CarWheel::BackRight, 350_000);
    let forward = moving(Vec3::new(0, 0, -units(35)));
    assert_eq!(force_of(car_acceleration(&car, &forward, &no_input(), &contact)), Vec3::new(0, 0, 21_875_000));
    let reversing = moving(Vec3::new(0, 0, units(35)));
    assert_eq!(force_of(car_acceleration(&car, &reversing, &no_input(), &contact)), Vec3::new(0, 0, -21_875_000));
    assert_eq!(force_of(car_acceleration(&car, &at_rest(), &no_input(), &contact)), Vec3::zero());
}

#[test]
fn drive_acts_only_on_driven_wheels() {
    let rear = CarPhysics::default();
    let front = CarPhysics { driven_wheels: DrivenWheels::Front, ..CarPhysics::default() };
    let all = CarPhysics { driven_wheels: DrivenWheels::All, ..CarPhysics::default() };
    for wheel in ALL_WHEELS {
        let contact = grounded(wheel, 350_000);
        let is_front = matches!(wheel, CarWheel::FrontRight | CarWheel::FrontLeft);
        assert_eq!(car_acceleration(&rear, &at_rest(), &throttle(), &contact).is_some(), !is_front);
        assert_eq!(car_acceleration(&front, &at_rest(), &throttle(), &contact).is_some(), is_front);
        assert!(car_acceleration(&all, &at_rest(), &throttle(), &contact).is_some());
    }
    let no_idle = CarPhysics { idle_accel_ratio: 0, ..CarPhysics::default() };
    let contact = grounded(CarWheel::BackLeft, 350_000);
    assert_eq!(car_acceleration(&no_idle, &moving(Vec3::new(0, 0, -units(3))), &no_input(), &contact), None);
}

#[test]
fn stationary_car_settles_on_half_compressed_springs() {
    let mut car = CarPhysics::default();
    let half = car.max_suspension / 2;
    let state = at_rest();
    for wheel in ALL_WHEELS {
        let contact = grounded(wheel, half);
        let expected = mul_fx(half, car.suspension_strength);
        assert_eq!(expected, 157_500_000);
        assert_eq!(force_of(update_car_suspension(&car, &state, &contact)), Vec3::new(0, expected, 0));
        assert_eq!(force_of(update_car_steering(&car, &state, &contact, 6_944)), Vec3::zero());
        if let Some(c) = car_acceleration(&car, &state, &no_input(), &contact) {
            assert_eq!(c.force, Vec3::zero());
        }
    }
    let wheels: Vec<WheelContact> = ALL_WHEELS.iter().map(|w| grounded(*w, half)).collect();
    let totals = simulate_tick(&mut car, &state, &no_input(), &wheels, 6_944);
    assert_eq!(totals.force, Vec3::new(0, 630_000_000, 0));
    assert_eq!(totals.torque, Vec3::zero());
    assert_eq!(car.wheel_rotation, 500_000);
    assert_eq!(car.wheel_rotation_speed, 1_500_000);
}

#[test]
fn no_drive_force_at_top_speed() {
    let car = CarPhysics { driven_wheels: DrivenWheels::All, ..CarPhysics::default() };
    let state = moving(Vec3::new(0, 0, -car.top_speed));
    for wheel in ALL_WHEELS {
        let f = force_of(car_acceleration(&car, &state, &throttle(), &grounded(wheel, 350_000)));
        assert_eq!(f, Vec3::zero());
    }
}

#[test]
fn steering_right_moves_at_the_steering_rate() {
    let mut car = CarPhysics::default();
    let right = Controls { steer_right: true, ..Controls::default() };
    // 1.5 per second for ten ticks of 0.01 s
    for _ in 0..10 {
        update_car_wheel_control(&mut car, &right, 10_000);
    }
    assert_eq!(car.wheel_rotation, 650_000);

    let mut car = CarPhysics { wheel_rotation_speed: 400_000, ..CarPhysics::default() };
    for _ in 0..5 {
        update_car_wheel_control(&mut car, &right, 100_000);
    }
    assert_eq!(car.wheel_rotation, 700_000);
}

#[test]
fn airborne_front_wheel_gets_no_drive() {
    let car = CarPhysics { driven_wheels: DrivenWheels::All, ..CarPhysics::default() };
    let state = at_rest();
    let wheels = [
        airborne(CarWheel::FrontRight),
        grounded(CarWheel::FrontLeft, 350_000),
        grounded(CarWheel::BackRight, 350_000),
        grounded(CarWheel::BackLeft, 350_000),
    ];
    let mut drive = ForceAccumulator::new();
    for contact in &wheels {
        let c = car_acceleration(&car, &state, &throttle(), contact);
        assert_eq!(c.is_some(), contact.hit.is_some());
        drive.add(&c, &state.center_of_mass);
    }
    assert_eq!(drive.force, Vec3::new(0, 0, -525_000_000));
    assert_eq!(drive.torque, Vec3::new(525_000_000, -175_000_000, 0));

    let mut ticked = car;
    let totals = simulate_tick(&mut ticked, &state, &throttle(), &wheels.to_vec(), 10_000);
    let suspension = mul_fx(350_000, car.suspension_strength);
    assert_eq!(totals.force, Vec3::new(0, 3 * suspension, -525_000_000));
}

#[test]
fn mount_points_sit_at_the_chassis_corners() {
    let size = Vec3::new(950_000, 400_000, 1_300_000);
    let frame = ChassisFrame::identity();
    assert_eq!(wheel_mount_point(&frame, &size, CarWheel::FrontRight), Vec3::new(950_000, -400_000, -1_300_000));
    assert_eq!(wheel_mount_point(&frame, &size, CarWheel::FrontLeft), Vec3::new(-950_000, -400_000, -1_300_000));
    assert_eq!(wheel_mount_point(&frame, &size, CarWheel::BackRight), Vec3::new(950_000, -400_000, 1_300_000));
    assert_eq!(wheel_mount_point(&frame, &size, CarWheel::BackLeft), Vec3::new(-950_000, -400_000, 1_300_000));

    // turned to face +x and lifted
    let turned = ChassisFrame {
        translation: Vec3::new(units(10), units(2), 0),
        right: Vec3::new(0, 0, SCALE),
        up: Vec3::new(0, SCALE, 0),
        back: Vec3::new(-SCALE, 0, 0),
    };
    assert_eq!(
        wheel_mount_point(&turned, &size, CarWheel::FrontRight),
        Vec3::new(units(10) + 1_300_000, units(2) - 400_000, 950_000)
    );
}

#[test]
fn wheel_meshes_follow_steering_and_suspension() {
    let car = CarPhysics::default();
    let placed = update_car_wheels(&car, &grounded(CarWheel::FrontLeft, 350_000));
    assert_eq!(placed.yaw, Some(0));
    assert_eq!(placed.height, Some(650_000));
    let back = update_car_wheels(&car, &grounded(CarWheel::BackLeft, 700_000));
    assert_eq!(back.yaw, None);
    assert_eq!(back.height, Some(300_000));
    let up = update_car_wheels(&car, &airborne(CarWheel::FrontRight));
    assert_eq!(up.height, None);

    let left = CarPhysics { wheel_rotation: 250_000, ..CarPhysics::default() };
    assert_eq!(update_car_wheels(&left, &airborne(CarWheel::FrontRight)).yaw, Some(523_599));
    let right = CarPhysics { wheel_rotation: 750_000, ..CarPhysics::default() };
    assert_eq!(update_car_wheels(&right, &airborne(CarWheel::FrontRight)).yaw, Some(5_759_586));
}

#[test]
fn speedometer_reads_kilometres_per_hour() {
    assert_eq!(car_speed_kmh(&moving(Vec3::new(0, 0, -units(10)))), units(36));
    assert_eq!(car_speed_kmh(&moving(Vec3::new(0, 0, units(10)))), units(36));
    assert_eq!(car_speed_kmh(&moving(Vec3::new(units(10), 0, 0))), 0);
}

#[test]
fn camera_closes_in_on_its_target() {
    let follow = CameraFollow { camera_translation_speed: SCALE, distance_behind: units(5) };
    let next = camera_follow(&follow, &Vec3::zero(), &Vec3::zero(), 500_000);
    assert_eq!(next, Vec3::new(0, 1_500_000, 2_500_000));
    let arrived = camera_follow(&follow, &Vec3::new(0, units(3), units(5)), &Vec3::zero(), 500_000);
    assert_eq!(arrived, Vec3::new(0, units(3), units(5)));
}

#[test]
fn tuning_is_checked() {
    assert!(CarPhysics::default().is_valid());
    assert!(!CarPhysics { top_speed: 0, ..CarPhysics::default() }.is_valid());
    assert!(!CarPhysics { max_suspension: 0, ..CarPhysics::default() }.is_valid());
    assert!(!CarPhysics { wheel_rotation: 900_000, ..CarPhysics::default() }.is_valid());
    assert!(!CarPhysics { steering_lower_bound: 600_000, ..CarPhysics::default() }.is_valid());
}

#[test]
fn chassis_and_contacts_are_checked() {
    assert!(at_rest().is_valid());
    let tilted = ChassisState {
        pose: ChassisFrame { up: Vec3::new(0, 2 * SCALE, 0), ..ChassisFrame::identity() },
        ..at_rest()
    };
    assert!(!tilted.is_valid());
    assert!(!moving(Vec3::new(0, 0, units(2_000))).is_valid());
    assert!(grounded(CarWheel::BackLeft, 350_000).is_valid());
    assert!(airborne(CarWheel::BackLeft).is_valid());
    let far = WheelContact {
        wheel: CarWheel::BackLeft,
        hit: Some(RayHit { time_of_impact: 0, point: Vec3::new(0, units(-2_000), 0) }),
    };
    assert!(!far.is_valid());
}

#[test]
fn ticks_keep_steering_in_bounds() {
    let mut car = CarPhysics::default();
    let state = at_rest();
    let wheels: Vec<WheelContact> = ALL_WHEELS.iter().map(|w| grounded(*w, 350_000)).collect();
    let right = Controls { steer_right: true, ..Controls::default() };
    for _ in 0..50 {
        simulate_tick(&mut car, &state, &right, &wheels, 20_000);
        assert!(car.wheel_rotation <= 800_000);
    }
    assert_eq!(car.wheel_rotation, 800_000);
    for _ in 0..50 {
        simulate_tick(&mut car, &state, &no_input(), &wheels, 20_000);
        assert!(car.wheel_rotation >= 500_000);
    }
    assert_eq!(car.wheel_rotation, 500_000);
}

#[test]
fn accumulator_sums_forces_and_torques() {
    let mut acc = ForceAccumulator::new();
    let com = Vec3::new(0, units(-1), 0);
    acc.add(&None, &com);
    assert_eq!(acc.force, Vec3::zero());
    let push = ForceContribution { force: Vec3::new(0, units(10), 0), point: Vec3::new(units(1), units(-1), 0) };
    acc.add(&Some(push), &com);
    acc.add(&Some(push), &com);
    assert_eq!(acc.force, Vec3::new(0, units(20), 0));
    // arm (1, 0, 0) crossed with (0, 10, 0), twice
    assert_eq!(acc.torque, Vec3::new(0, 0, units(20)));
    assert_eq!(acc.contributions, 3);
}

#[test]
fn brake_mirrors_throttle() {
    let car = CarPhysics { top_speed: 350_000_003, ..CarPhysics::default() };
    let state = ChassisState {
        pose: ChassisFrame { back: Vec3::new(600_000, 0, 800_000), ..ChassisFrame::identity() },
        ..at_rest()
    };
    let brake = Controls { brake: true, ..Controls::default() };
    let contact = grounded(CarWheel::BackLeft, 350_000);
    let ahead = force_of(car_acceleration(&car, &state, &throttle(), &contact));
    let behind = force_of(car_acceleration(&car, &state, &brake, &contact));
    assert_eq!(ahead, Vec3::new(-105_000_000, 0, -140_000_000));
    assert_eq!(ahead, Vec3::new(-behind.x, -behind.y, -behind.z));

    let com = Vec3::new(123_457, -300_001, 299_999);
    let mut forward = ForceAccumulator::new();
    forward.add(&car_acceleration(&car, &state, &throttle(), &contact), &com);
    let mut backward = ForceAccumulator::new();
    backward.add(&car_acceleration(&car, &state, &brake, &contact), &com);
    let t = backward.torque;
    assert_eq!(forward.torque, Vec3::new(-t.x, -t.y, -t.z));
    assert_ne!(t, Vec3::zero());
}

#[test]
fn degenerate_axes_are_rejected() {
    let zero_up = ChassisState {
        pose: ChassisFrame { up: Vec3::zero(), ..ChassisFrame::identity() },
        ..at_rest()
    };
    assert!(!zero_up.is_valid());
    let short = ChassisState {
        pose: ChassisFrame { right: Vec3::new(900_000, 0, 0), ..ChassisFrame::identity() },
        ..at_rest()
    };
    assert!(!short.is_valid());
    let slightly_off = ChassisState {
        pose: ChassisFrame { right: Vec3::new(999_999, 1_000, 0), ..ChassisFrame::identity() },
        ..at_rest()
    };
    assert!(slightly_off.is_valid());
    let diagonal = ChassisState {
        pose: ChassisFrame { back: Vec3::new(600_000, 0, 800_000), ..ChassisFrame::identity() },
        ..at_rest()
    };
    assert!(diagonal.is_valid());
}
