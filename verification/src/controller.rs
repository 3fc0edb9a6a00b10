//! The per-tick mixing algorithm: from one validated command set and the
//! latest inertial sample to the four saturated motor speeds.

use vstd::prelude::*;
use vstd::pervasive::unreached;
use crate::math::SCALE;
use crate::math::PI_SIXTH;
use crate::math::clamp_unit;
use crate::math::sqrt_floor;
use crate::vector::Vec3;
use crate::vector::bounded;
use crate::vector::norm_sq;
use crate::vector::view3;
use crate::vector::triple_dot;
use crate::vector::triple_norm_sq;
use crate::vector::residual;
use crate::vector::lemma_mul_bound;
use crate::motors::MotorSpeeds;
use crate::motors::front_left_position;
use crate::motors::front_right_position;
use crate::motors::rear_left_position;
use crate::motors::rear_right_position;
use crate::imu::IMUData;
use crate::imu::IMUDataPoint;
use crate::imu::HISTORY_CAPACITY;
use crate::transmitter::TransmitterState;

verus! {

/// Largest angular-velocity component a sample may carry into the mixer, in
/// micro-units: a machine limit that keeps the fixed-point arithmetic exact.
pub const MAX_ANGULAR_RATE: i64 = 500_000_000;

/// A sample whose angular velocity the mixer accepts.
pub open spec fn sample_in_envelope(p: IMUDataPoint) -> bool {
    bounded(p.gyro, MAX_ANGULAR_RATE as int)
}

/// The body-frame rotation vector commanded by the roll and pitch axes:
/// each axis maps linearly to a maximum tilt rate of one sixth of pi, and
/// yaw is handled separately as a differential term.
pub open spec fn desired_rotation(ts: TransmitterState) -> (int, int, int) {
    (
        ((PI_SIXTH as int) * ts.roll()) / (SCALE as int),
        0,
        ((PI_SIXTH as int) * ts.pitch()) / (SCALE as int),
    )
}

/// The proportional torque error: desired rotation minus measured angular
/// velocity, with the yaw (y) component excluded.
pub open spec fn torque_error(ts: TransmitterState, gyro: Vec3) -> (int, int, int) {
    (desired_rotation(ts).0 - gyro.x, 0, desired_rotation(ts).2 - gyro.z)
}

/// The speed the mixer assigns to the motor at arm position `pos` with yaw
/// sign `yaw_sign`: the floor norm of the torque-error residual, plus half
/// the throttle axis, plus the signed quarter of the yaw axis, saturated
/// into `[0, SCALE]`.
pub open spec fn mixed_speed(ts: TransmitterState, gyro: Vec3, pos: Vec3, yaw_sign: int) -> int {
    clamp_unit(
        sqrt_floor(triple_norm_sq(residual(torque_error(ts, gyro), pos)) as nat) as int
            + ts.throttle() / 2 + yaw_sign * (ts.yaw_rate() / 4),
    )
}

/// Saturation: whatever the command set, the sample and the arm, the mixed
/// speed lies in `[0, SCALE]`.
pub proof fn lemma_mixed_speed_saturated(ts: TransmitterState, gyro: Vec3, pos: Vec3, yaw_sign: int)
    ensures
        0 <= mixed_speed(ts, gyro, pos, yaw_sign) <= SCALE,
{
}

/// Determinism: the mixing step is a function of the command set and the
/// latest sample alone, so two invocations on equal inputs assign equal
/// speeds to every motor.
pub proof fn lemma_mixing_deterministic(
    ts1: TransmitterState,
    ts2: TransmitterState,
    g1: Vec3,
    g2: Vec3,
)
    requires
        ts1 == ts2,
        g1 == g2,
    ensures
        mixed_speed(ts1, g1, front_left_position(), 1) == mixed_speed(
            ts2,
            g2,
            front_left_position(),
            1,
        ),
        mixed_speed(ts1, g1, front_right_position(), -1) == mixed_speed(
            ts2,
            g2,
            front_right_position(),
            -1,
        ),
        mixed_speed(ts1, g1, rear_left_position(), -1) == mixed_speed(
            ts2,
            g2,
            rear_left_position(),
            -1,
        ),
        mixed_speed(ts1, g1, rear_right_position(), 1) == mixed_speed(
            ts2,
            g2,
            rear_right_position(),
            1,
        ),
{
}

/// For each of the four fixed arm vectors, whose squared norm is 2, the
/// residual's dot product with the arm comes out as the negated dot product
/// of the torque error with the arm; it vanishes exactly when the torque
/// error is orthogonal to that arm.
pub proof fn lemma_residual_dot_arm(t: (int, int, int), p: Vec3)
    requires
        p == front_left_position() || p == front_right_position() || p == rear_left_position()
            || p == rear_right_position(),
    ensures
        triple_dot(residual(t, p), p) == -triple_dot(t, p),
{
    crate::vector::lemma_residual_dot(t, p);
    assert(norm_sq(p) == 2) by (nonlinear_arith)
        requires
            (p.x == 1 || p.x == -1) && p.y == 0 && (p.z == 1 || p.z == -1),
    ;
    assert((1 - 2) * triple_dot(t, p) == -triple_dot(t, p)) by (nonlinear_arith);
}

/// The controller: exclusive owner of the four motors and the sensor
/// history, recomputing every motor speed once per tick.
pub struct Controller {
    motors: MotorSpeeds,
    imu: IMUData,
}

impl Controller {
    /// The motors as last set by the mixer.
    pub closed spec fn speeds(self) -> MotorSpeeds {
        self.motors
    }

    /// The retained window of inertial samples, newest last.
    pub closed spec fn history(self) -> Seq<IMUDataPoint> {
        self.imu.window()
    }

    /// Both owned components are well formed.
    pub closed spec fn wf(self) -> bool {
        &&& self.motors.wf()
        &&& self.imu.wf()
    }

    /// A controller with stopped motors and an empty sensor history.
    pub fn new() -> (r: Controller)
        ensures
            r.wf(),
            r.history() == Seq::<IMUDataPoint>::empty(),
            r.speeds().wf(),
            r.speeds().front_left_speed() == 0,
            r.speeds().front_right_speed() == 0,
            r.speeds().rear_left_speed() == 0,
            r.speeds().rear_right_speed() == 0,
    {
        Controller { motors: MotorSpeeds::new(), imu: IMUData::new() }
    }

    /// Torque error from the latest sample: the desired rotation minus the
    /// measured angular velocity, with the yaw component zeroed.
    fn calculate_torque(&self, desired: Vec3) -> (r: Vec3)
        requires
            self.imu.wf(),
            self.imu.window().len() > 0,
            bounded(self.imu.window().last().gyro, MAX_ANGULAR_RATE as int),
            bounded(desired, 600_000),
            desired.y == 0,
        ensures
            r.x == desired.x - self.imu.window().last().gyro.x,
            r.y == 0,
            r.z == desired.z - self.imu.window().last().gyro.z,
            bounded(r, 501_000_000),
    {
        let latest = match self.imu.get_data_point() {
            Ok(d) => d,
            Err(_) => unreached(),
        };
        let mut dt = desired.minus(&latest.gyro);
        dt.y = 0;
        dt
    }

    /// One motor's raw (unsaturated) speed: the floor norm of the
    /// torque-error residual for the arm at `pos`, plus the precomputed
    /// throttle and yaw terms in `base`.
    fn mix_one(torque: &Vec3, pos: &Vec3, base: i64) -> (r: i64)
        requires
            bounded(*torque, 501_000_000),
            torque.y == 0,
            bounded(*pos, 1),
            -SCALE <= base <= SCALE,
        ensures
            r == sqrt_floor(triple_norm_sq(residual(view3(*torque), *pos)) as nat) + base,
    {
        let res = torque.residual_of(pos);
        let m = res.norm();
        proof {
            assert(norm_sq(res) == triple_norm_sq(residual(view3(*torque), *pos)));
        }
        m + base
    }

    /// One control tick: record the sample, then recompute all four motor
    /// speeds from the command set and that sample, returning the updated
    /// motors.
    pub fn calculate_motor_speeds(
        &mut self,
        imu_data_point: IMUDataPoint,
        transmitter_state: &TransmitterState,
    ) -> (r: MotorSpeeds)
        requires
            old(self).wf(),
            transmitter_state.wf(),
            sample_in_envelope(imu_data_point),
        ensures
            final(self).wf(),
            final(self).history() == if old(self).history().len() < HISTORY_CAPACITY {
                old(self).history().push(imu_data_point)
            } else {
                old(self).history().subrange(1, HISTORY_CAPACITY as int).push(imu_data_point)
            },
            r == final(self).speeds(),
            r.wf(),
            r.front_left_speed() == mixed_speed(
                *transmitter_state,
                imu_data_point.gyro,
                front_left_position(),
                1,
            ),
            r.front_right_speed() == mixed_speed(
                *transmitter_state,
                imu_data_point.gyro,
                front_right_position(),
                -1,
            ),
            r.rear_left_speed() == mixed_speed(
                *transmitter_state,
                imu_data_point.gyro,
                rear_left_position(),
                -1,
            ),
            r.rear_right_speed() == mixed_speed(
                *transmitter_state,
                imu_data_point.gyro,
                rear_right_position(),
                1,
            ),
    {
        self.imu.add_data_point(imu_data_point);
        let roll = transmitter_state.get_roll();
        let pitch = transmitter_state.get_pitch();
        proof {
            lemma_mul_bound(PI_SIXTH as int, roll as int, 600_000, SCALE as int);
            lemma_mul_bound(PI_SIXTH as int, pitch as int, 600_000, SCALE as int);
            assert((PI_SIXTH as int) * (roll as int) >= 0) by (nonlinear_arith)
                requires
                    roll >= 0,
            ;
            assert((PI_SIXTH as int) * (pitch as int) >= 0) by (nonlinear_arith)
                requires
                    pitch >= 0,
            ;
        }
        let desired = Vec3 { x: (PI_SIXTH * roll) / SCALE, y: 0, z: (PI_SIXTH * pitch) / SCALE };
        let torque = self.calculate_torque(desired);
        let throttle = transmitter_state.get_throttle();
        let yaw = transmitter_state.get_yaw_rate();
        let half_throttle = throttle / 2;
        let quarter_yaw = yaw / 4;
        let base_cw = half_throttle + quarter_yaw;
        let base_ccw = half_throttle - quarter_yaw;
        let fl = Self::mix_one(&torque, &Vec3 { x: 1, y: 0, z: -1 }, base_cw);
        let fr = Self::mix_one(&torque, &Vec3 { x: 1, y: 0, z: 1 }, base_ccw);
        let rl = Self::mix_one(&torque, &Vec3 { x: -1, y: 0, z: -1 }, base_ccw);
        let rr = Self::mix_one(&torque, &Vec3 { x: -1, y: 0, z: 1 }, base_cw);
        self.motors.set_front_left(fl);
        self.motors.set_front_right(fr);
        self.motors.set_rear_left(rl);
        self.motors.set_rear_right(rr);
        proof {
            assert(view3(torque) == torque_error(*transmitter_state, imu_data_point.gyro));
        }
        self.motors
    }
}

} // verus!
