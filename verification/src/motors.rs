//! The four named motors of the X-frame: fixed arm geometry and clamped
//! speed storage.

use vstd::prelude::*;
use crate::math::SCALE;
use crate::math::clamp_unit;
use crate::math::constrain;
use crate::vector::Vec3;

verus! {

/// Arm position of the front-left motor, in body-frame coordinates.
pub open spec fn front_left_position() -> Vec3 {
    Vec3 { x: 1i64, y: 0i64, z: -1i64 }
}

/// Arm position of the front-right motor, in body-frame coordinates.
pub open spec fn front_right_position() -> Vec3 {
    Vec3 { x: 1i64, y: 0i64, z: 1i64 }
}

/// Arm position of the rear-left motor, in body-frame coordinates.
pub open spec fn rear_left_position() -> Vec3 {
    Vec3 { x: -1i64, y: 0i64, z: -1i64 }
}

/// Arm position of the rear-right motor, in body-frame coordinates.
pub open spec fn rear_right_position() -> Vec3 {
    Vec3 { x: -1i64, y: 0i64, z: 1i64 }
}

/// One motor: a current normalized speed and a fixed body-frame arm offset.
#[derive(Clone, Copy, PartialEq, Eq, Structural, Debug)]
pub struct Motor {
    pub(crate) speed: i64,
    pub(crate) pos: Vec3,
}

impl Motor {
    /// A stopped motor mounted at `pos`.
    pub(crate) fn new(pos: Vec3) -> (r: Motor)
        ensures
            r.speed == 0,
            r.pos == pos,
    {
        Motor { speed: 0, pos }
    }
}

/// The four named motors of the airframe, with clamped setters and getters.
#[derive(Clone, Copy, PartialEq, Eq, Structural, Debug)]
pub struct MotorSpeeds {
    pub(crate) front_left: Motor,
    pub(crate) front_right: Motor,
    pub(crate) rear_left: Motor,
    pub(crate) rear_right: Motor,
}

impl MotorSpeeds {
    /// Speed of the front-left motor, in micro-units.
    pub closed spec fn front_left_speed(self) -> int {
        self.front_left.speed as int
    }

    /// Speed of the front-right motor, in micro-units.
    pub closed spec fn front_right_speed(self) -> int {
        self.front_right.speed as int
    }

    /// Speed of the rear-left motor, in micro-units.
    pub closed spec fn rear_left_speed(self) -> int {
        self.rear_left.speed as int
    }

    /// Speed of the rear-right motor, in micro-units.
    pub closed spec fn rear_right_speed(self) -> int {
        self.rear_right.speed as int
    }

    /// Arm position of the front-left motor.
    pub closed spec fn front_left_pos(self) -> Vec3 {
        self.front_left.pos
    }

    /// Arm position of the front-right motor.
    pub closed spec fn front_right_pos(self) -> Vec3 {
        self.front_right.pos
    }

    /// Arm position of the rear-left motor.
    pub closed spec fn rear_left_pos(self) -> Vec3 {
        self.rear_left.pos
    }

    /// Arm position of the rear-right motor.
    pub closed spec fn rear_right_pos(self) -> Vec3 {
        self.rear_right.pos
    }

    /// The fixed X-frame arm geometry is in place and every speed lies in
    /// `[0, SCALE]`.
    pub open spec fn wf(self) -> bool {
        &&& self.front_left_pos() == front_left_position()
        &&& self.front_right_pos() == front_right_position()
        &&& self.rear_left_pos() == rear_left_position()
        &&& self.rear_right_pos() == rear_right_position()
        &&& 0 <= self.front_left_speed() <= SCALE
        &&& 0 <= self.front_right_speed() <= SCALE
        &&& 0 <= self.rear_left_speed() <= SCALE
        &&& 0 <= self.rear_right_speed() <= SCALE
    }

    /// All four motors stopped, mounted at the X-frame arm positions.
    pub fn new() -> (r: MotorSpeeds)
        ensures
            r.wf(),
            r.front_left_speed() == 0,
            r.front_right_speed() == 0,
            r.rear_left_speed() == 0,
            r.rear_right_speed() == 0,
    {
        MotorSpeeds {
            front_left: Motor::new(Vec3 { x: 1, y: 0, z: -1 }),
            front_right: Motor::new(Vec3 { x: 1, y: 0, z: 1 }),
            rear_left: Motor::new(Vec3 { x: -1, y: 0, z: -1 }),
            rear_right: Motor::new(Vec3 { x: -1, y: 0, z: 1 }),
        }
    }

    /// Store `val` saturated into `[0, SCALE]` as the front-left speed; the
    /// other motors and all arm positions are untouched.
    pub fn set_front_left(&mut self, val: i64)
        ensures
            final(self).front_left_speed() == clamp_unit(val as int),
            final(self).front_right_speed() == old(self).front_right_speed(),
            final(self).rear_left_speed() == old(self).rear_left_speed(),
            final(self).rear_right_speed() == old(self).rear_right_speed(),
            final(self).front_left_pos() == old(self).front_left_pos(),
            final(self).front_right_pos() == old(self).front_right_pos(),
            final(self).rear_left_pos() == old(self).rear_left_pos(),
            final(self).rear_right_pos() == old(self).rear_right_pos(),
            old(self).wf() ==> final(self).wf(),
    {
        self.front_left.speed = constrain(val);
    }

    /// Store `val` saturated into `[0, SCALE]` as the front-right speed; the
    /// other motors and all arm positions are untouched.
    pub fn set_front_right(&mut self, val: i64)
        ensures
            final(self).front_right_speed() == clamp_unit(val as int),
            final(self).front_left_speed() == old(self).front_left_speed(),
            final(self).rear_left_speed() == old(self).rear_left_speed(),
            final(self).rear_right_speed() == old(self).rear_right_speed(),
            final(self).front_left_pos() == old(self).front_left_pos(),
            final(self).front_right_pos() == old(self).front_right_pos(),
            final(self).rear_left_pos() == old(self).rear_left_pos(),
            final(self).rear_right_pos() == old(self).rear_right_pos(),
            old(self).wf() ==> final(self).wf(),
    {
        self.front_right.speed = constrain(val);
    }

    /// Store `val` saturated into `[0, SCALE]` as the rear-left speed; the
    /// other motors and all arm positions are untouched.
    pub fn set_rear_left(&mut self, val: i64)
        ensures
            final(self).rear_left_speed() == clamp_unit(val as int),
            final(self).front_left_speed() == old(self).front_left_speed(),
            final(self).front_right_speed() == old(self).front_right_speed(),
            final(self).rear_right_speed() == old(self).rear_right_speed(),
            final(self).front_left_pos() == old(self).front_left_pos(),
            final(self).front_right_pos() == old(self).front_right_pos(),
            final(self).rear_left_pos() == old(self).rear_left_pos(),
            final(self).rear_right_pos() == old(self).rear_right_pos(),
            old(self).wf() ==> final(self).wf(),
    {
        self.rear_left.speed = constrain(val);
    }

    /// Store `val` saturated into `[0, SCALE]` as the rear-right speed; the
    /// other motors and all arm positions are untouched.
    pub fn set_rear_right(&mut self, val: i64)
        ensures
            final(self).rear_right_speed() == clamp_unit(val as int),
            final(self).front_left_speed() == old(self).front_left_speed(),
            final(self).front_right_speed() == old(self).front_right_speed(),
            final(self).rear_left_speed() == old(self).rear_left_speed(),
            final(self).front_left_pos() == old(self).front_left_pos(),
            final(self).front_right_pos() == old(self).front_right_pos(),
            final(self).rear_left_pos() == old(self).rear_left_pos(),
            final(self).rear_right_pos() == old(self).rear_right_pos(),
            old(self).wf() ==> final(self).wf(),
    {
        self.rear_right.speed = constrain(val);
    }

    /// Current front-left speed, in micro-units.
    pub fn get_front_left(&self) -> (r: i64)
        ensures
            r == self.front_left_speed(),
    {
        self.front_left.speed
    }

    /// Current front-right speed, in micro-units.
    pub fn get_front_right(&self) -> (r: i64)
        ensures
            r == self.front_right_speed(),
    {
        self.front_right.speed
    }

    /// Current rear-left speed, in micro-units.
    pub fn get_rear_left(&self) -> (r: i64)
        ensures
            r == self.rear_left_speed(),
    {
        self.rear_left.speed
    }

    /// Current rear-right speed, in micro-units.
    pub fn get_rear_right(&self) -> (r: i64)
        ensures
            r == self.rear_right_speed(),
    {
        self.rear_right.speed
    }
}

} // verus!
