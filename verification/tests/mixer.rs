use quadmix::controller::Controller;
use quadmix::imu::IMUDataPoint;
use quadmix::transmitter::TransmitterState;
use quadmix::vector::Vec3;

fn zero_vec() -> Vec3 {
    Vec3 { x: 0, y: 0, z: 0 }
}

fn zero_sample() -> IMUDataPoint {
    IMUDataPoint::new(zero_vec(), zero_vec(), 0)
}

#[test]
fn it_works() {
    assert_eq!(4, 4);
}

#[test]
fn zero_input_identity() {
    let ts = TransmitterState::new(0, 0, 0, 0).unwrap();
    let mut c = Controller::new();
    let r = c.calculate_motor_speeds(zero_sample(), &ts);
    assert_eq!(r.get_front_left(), 0);
    assert_eq!(r.get_front_right(), 0);
    assert_eq!(r.get_rear_left(), 0);
    assert_eq!(r.get_rear_right(), 0);
}

#[test]
fn throttle_only_half_speed() {
    let ts = TransmitterState::new(1_000_000, 0, 0, 0).unwrap();
    let mut c = Controller::new();
    let r = c.calculate_motor_speeds(zero_sample(), &ts);
    assert_eq!(r.get_front_left(), 500_000);
    assert_eq!(r.get_front_right(), 500_000);
    assert_eq!(r.get_rear_left(), 500_000);
    assert_eq!(r.get_rear_right(), 500_000);
}

#[test]
fn yaw_only_differential() {
    let ts = TransmitterState::new(0, 1_000_000, 0, 0).unwrap();
    let mut c = Controller::new();
    let r = c.calculate_motor_speeds(zero_sample(), &ts);
    assert_eq!(r.get_front_left(), 250_000);
    assert_eq!(r.get_front_right(), 0);
    assert_eq!(r.get_rear_left(), 0);
    assert_eq!(r.get_rear_right(), 250_000);
}

#[test]
fn combined_throttle_and_yaw() {
    let ts = TransmitterState::new(1_000_000, 1_000_000, 0, 0).unwrap();
    let mut c = Controller::new();
    let r = c.calculate_motor_speeds(zero_sample(), &ts);
    assert_eq!(r.get_front_left(), 750_000);
    assert_eq!(r.get_front_right(), 250_000);
    assert_eq!(r.get_rear_left(), 250_000);
    assert_eq!(r.get_rear_right(), 750_000);
}

#[test]
fn full_roll_tilt_rate() {
    // A full roll deflection commands a tilt rate of pi/6: with a still
    // gyro every residual norm equals that rate exactly.
    let ts = TransmitterState::new(0, 0, 0, 1_000_000).unwrap();
    let mut c = Controller::new();
    let r = c.calculate_motor_speeds(zero_sample(), &ts);
    assert_eq!(r.get_front_left(), 523_599);
    assert_eq!(r.get_front_right(), 523_599);
    assert_eq!(r.get_rear_left(), 523_599);
    assert_eq!(r.get_rear_right(), 523_599);
}

#[test]
fn gyro_correction_exact() {
    // Zero commands with a small measured roll rate: each motor picks up
    // exactly the magnitude of the correction.
    let gyro = Vec3 { x: 100_000, y: 0, z: 0 };
    let sample = IMUDataPoint::new(gyro, zero_vec(), 0);
    let ts = TransmitterState::new(0, 0, 0, 0).unwrap();
    let mut c = Controller::new();
    let r = c.calculate_motor_speeds(sample, &ts);
    assert_eq!(r.get_front_left(), 100_000);
    assert_eq!(r.get_front_right(), 100_000);
    assert_eq!(r.get_rear_left(), 100_000);
    assert_eq!(r.get_rear_right(), 100_000);
}

#[test]
fn saturation_under_extreme_rates() {
    // A violent tumble saturates every motor, and no speed ever leaves
    // [0, 1_000_000].
    let gyro = Vec3 { x: 400_000_000, y: 0, z: -400_000_000 };
    let sample = IMUDataPoint::new(gyro, zero_vec(), 0);
    let ts = TransmitterState::new(1_000_000, 1_000_000, 1_000_000, 1_000_000).unwrap();
    let mut c = Controller::new();
    let r = c.calculate_motor_speeds(sample, &ts);
    for speed in [
        r.get_front_left(),
        r.get_front_right(),
        r.get_rear_left(),
        r.get_rear_right(),
    ] {
        assert!(speed >= 0);
        assert!(speed <= 1_000_000);
    }
    assert_eq!(r.get_front_left(), 1_000_000);
    assert_eq!(r.get_rear_right(), 1_000_000);
}

#[test]
fn saturation_across_many_inputs() {
    // Sweep a grid of commands and gyro rates: outputs stay in range.
    let axes = [0i64, 250_000, 1_000_000];
    let rates = [-400_000_000i64, -1_000, 0, 777, 399_999_999];
    for &t in &axes {
        for &y in &axes {
            for &gx in &rates {
                for &gz in &rates {
                    let gyro = Vec3 { x: gx, y: 0, z: gz };
                    let sample = IMUDataPoint::new(gyro, zero_vec(), 0);
                    let ts = TransmitterState::new(t, y, 250_000, 250_000).unwrap();
                    let mut c = Controller::new();
                    let r = c.calculate_motor_speeds(sample, &ts);
                    for speed in [
                        r.get_front_left(),
                        r.get_front_right(),
                        r.get_rear_left(),
                        r.get_rear_right(),
                    ] {
                        assert!(speed >= 0 && speed <= 1_000_000);
                    }
                }
            }
        }
    }
}

#[test]
fn mixing_is_deterministic() {
    // Two ticks with the identical command set and identical sample give
    // identical speeds.
    let gyro = Vec3 { x: 12_345, y: 678, z: -9_012 };
    let sample = IMUDataPoint::new(gyro, zero_vec(), 42);
    let ts = TransmitterState::new(300_000, 200_000, 100_000, 400_000).unwrap();
    let mut c = Controller::new();
    let first = c.calculate_motor_speeds(sample, &ts);
    let second = c.calculate_motor_speeds(sample, &ts);
    assert_eq!(first.get_front_left(), second.get_front_left());
    assert_eq!(first.get_front_right(), second.get_front_right());
    assert_eq!(first.get_rear_left(), second.get_rear_left());
    assert_eq!(first.get_rear_right(), second.get_rear_right());
}
