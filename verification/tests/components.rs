use quadmix::imu::IMUData;
use quadmix::imu::IMUDataPoint;
use quadmix::imu::NoData;
use quadmix::math::isqrt;
use quadmix::motors::MotorSpeeds;
use quadmix::transmitter::Axis;
use quadmix::transmitter::InvalidInput;
use quadmix::transmitter::TransmitterState;
use quadmix::vector::Vec3;

fn zero_vec() -> Vec3 {
    Vec3 { x: 0, y: 0, z: 0 }
}

#[test]
fn validation_rejects_above_one() {
    // 1.5 units on any axis is rejected.
    assert!(TransmitterState::new(1_500_000, 0, 0, 0).is_err());
    assert!(TransmitterState::new(0, 1_500_000, 0, 0).is_err());
    assert!(TransmitterState::new(0, 0, 1_500_000, 0).is_err());
    assert!(TransmitterState::new(0, 0, 0, 1_500_000).is_err());
}

#[test]
fn validation_rejects_below_zero() {
    // -0.1 units on any axis is rejected.
    assert!(TransmitterState::new(-100_000, 0, 0, 0).is_err());
    assert!(TransmitterState::new(0, -100_000, 0, 0).is_err());
    assert!(TransmitterState::new(0, 0, -100_000, 0).is_err());
    assert!(TransmitterState::new(0, 0, 0, -100_000).is_err());
}

#[test]
fn validation_accepts_boundaries() {
    assert!(TransmitterState::new(0, 0, 0, 0).is_ok());
    assert!(TransmitterState::new(1_000_000, 1_000_000, 1_000_000, 1_000_000).is_ok());
    assert!(TransmitterState::new(0, 1_000_000, 0, 1_000_000).is_ok());
}

#[test]
fn invalid_input_names_axis_and_value() {
    let err = TransmitterState::new(0, 0, 0, -100_000).unwrap_err();
    assert_eq!(err, InvalidInput { axis: Axis::Roll, value: -100_000 });
    let err = TransmitterState::new(0, 1_500_000, 0, 0).unwrap_err();
    assert_eq!(err, InvalidInput { axis: Axis::YawRate, value: 1_500_000 });
    // The first out-of-range axis, in throttle-yaw-pitch-roll order, is the
    // one reported.
    let err = TransmitterState::new(-1, -1, -1, -1).unwrap_err();
    assert_eq!(err, InvalidInput { axis: Axis::Throttle, value: -1 });
}

#[test]
fn validated_axes_are_stored() {
    let ts = TransmitterState::new(1, 2, 3, 4).unwrap();
    assert_eq!(ts.get_throttle(), 1);
    assert_eq!(ts.get_yaw_rate(), 2);
    assert_eq!(ts.get_pitch(), 3);
    assert_eq!(ts.get_roll(), 4);
}

#[test]
fn motor_setters_saturate() {
    let mut m = MotorSpeeds::new();
    assert_eq!(m.get_front_left(), 0);
    m.set_front_left(2_000_000);
    assert_eq!(m.get_front_left(), 1_000_000);
    m.set_front_right(-5);
    assert_eq!(m.get_front_right(), 0);
    m.set_rear_left(123);
    assert_eq!(m.get_rear_left(), 123);
    m.set_rear_right(1_000_000);
    assert_eq!(m.get_rear_right(), 1_000_000);
    // The other motors were untouched.
    assert_eq!(m.get_front_left(), 1_000_000);
    assert_eq!(m.get_front_right(), 0);
}

#[test]
fn history_empty_reports_no_data() {
    let h = IMUData::new();
    assert_eq!(h.get_data_point(), Err(NoData));
}

#[test]
fn history_latest_follows_appends() {
    let mut h = IMUData::new();
    let first = IMUDataPoint::new(zero_vec(), zero_vec(), 1);
    h.add_data_point(first);
    assert_eq!(h.get_data_point(), Ok(&first));
    let second = IMUDataPoint::new(Vec3 { x: 7, y: 8, z: 9 }, zero_vec(), 2);
    h.add_data_point(second);
    assert_eq!(h.get_data_point(), Ok(&second));
}

#[test]
fn history_wraps_past_capacity() {
    // Appending far past the fixed capacity keeps working and keeps the
    // most recent sample current.
    let mut h = IMUData::new();
    for i in 0..25i64 {
        h.add_data_point(IMUDataPoint::new(zero_vec(), zero_vec(), i));
        assert_eq!(h.get_data_point().unwrap().time_point, i);
    }
}

#[test]
fn default_sample_is_zero() {
    let d = IMUDataPoint::default();
    assert_eq!(d.gyro, zero_vec());
    assert_eq!(d.accel, zero_vec());
    assert_eq!(d.time_point, 0);
}

#[test]
fn isqrt_exact_values() {
    assert_eq!(isqrt(0), 0);
    assert_eq!(isqrt(1), 1);
    assert_eq!(isqrt(2), 1);
    assert_eq!(isqrt(3), 1);
    assert_eq!(isqrt(4), 2);
    assert_eq!(isqrt(99), 9);
    assert_eq!(isqrt(100), 10);
    assert_eq!(isqrt(1_000_000_000_000), 1_000_000);
    assert_eq!(isqrt(u64::MAX), 4_294_967_295);
}

fn arm_positions() -> [Vec3; 4] {
    [
        Vec3 { x: 1, y: 0, z: -1 },
        Vec3 { x: 1, y: 0, z: 1 },
        Vec3 { x: -1, y: 0, z: -1 },
        Vec3 { x: -1, y: 0, z: 1 },
    ]
}

#[test]
fn residual_orthogonal_when_error_orthogonal() {
    // Sample torque errors orthogonal to each arm: the residual stays
    // orthogonal to that arm.
    for p in arm_positions() {
        for k in [1i64, 17, 400_000, 500_000_000] {
            // (k*p.z, 0, -k*p.x) is orthogonal to (p.x, 0, p.z).
            let t = Vec3 { x: k * p.z, y: 0, z: -k * p.x };
            assert_eq!(p.dot_with(&t), 0);
            let res = t.residual_of(&p);
            assert_eq!(p.dot_with(&res), 0);
        }
    }
}

#[test]
fn residual_dot_matches_identity() {
    // For the X-frame arms (squared norm 2) the residual's dot product
    // with the arm equals the negated dot product of the error with the
    // arm.
    for p in arm_positions() {
        for (tx, tz) in [(123_456i64, -654_321i64), (1, 0), (0, 1), (250_000, 250_000)] {
            let t = Vec3 { x: tx, y: 0, z: tz };
            let res = t.residual_of(&p);
            assert_eq!(p.dot_with(&res), -p.dot_with(&t));
        }
    }
}

#[test]
fn norm_is_floor_of_euclidean_length() {
    let v = Vec3 { x: 300_000, y: 0, z: 400_000 };
    assert_eq!(v.norm(), 500_000);
    let w = Vec3 { x: 1, y: 1, z: 1 };
    assert_eq!(w.norm(), 1);
    assert_eq!(zero_vec().norm(), 0);
}
