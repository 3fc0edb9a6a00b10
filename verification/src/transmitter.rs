//! Validated pilot command axes: four fixed-point values, each gated into
//! `[0, SCALE]` when the state is constructed and immutable afterwards.

use vstd::prelude::*;
use crate::math::SCALE;

verus! {

/// The four command axes of the transmitter.
#[derive(Clone, Copy, PartialEq, Eq, Structural, Debug)]
pub enum Axis {
    Throttle,
    YawRate,
    Pitch,
    Roll,
}

/// Error returned when a raw command axis lies outside `[0, SCALE]`; it
/// carries the offending axis and value.
#[derive(Clone, Copy, PartialEq, Eq, Structural, Debug)]
pub struct InvalidInput {
    pub axis: Axis,
    pub value: i64,
}

/// A raw axis value is acceptable when it lies in the closed unit interval.
pub open spec fn in_range(v: int) -> bool {
    0 <= v <= SCALE
}

/// A validated set of command axes, in micro-units.  Instances exist only
/// with all four axes in `[0, SCALE]`.
#[derive(Clone, Copy, PartialEq, Eq, Structural, Debug)]
pub struct TransmitterState {
    up_down: i64,
    rotate_pos_neg: i64,
    forward_backward: i64,
    left_right: i64,
}

impl TransmitterState {
    /// The throttle (vertical) axis.
    pub closed spec fn throttle(self) -> int {
        self.up_down as int
    }

    /// The yaw-rotate axis.
    pub closed spec fn yaw_rate(self) -> int {
        self.rotate_pos_neg as int
    }

    /// The pitch (forward-backward) axis.
    pub closed spec fn pitch(self) -> int {
        self.forward_backward as int
    }

    /// The roll (left-right) axis.
    pub closed spec fn roll(self) -> int {
        self.left_right as int
    }

    /// All four axes lie in `[0, SCALE]`.
    pub open spec fn wf(self) -> bool {
        &&& in_range(self.throttle())
        &&& in_range(self.yaw_rate())
        &&& in_range(self.pitch())
        &&& in_range(self.roll())
    }

    /// Gate one raw axis value: out-of-range input is rejected, never
    /// coerced.
    fn validate_input(axis: Axis, val: i64) -> (r: Result<i64, InvalidInput>)
        ensures
            in_range(val as int) ==> r == Ok::<i64, InvalidInput>(val),
            !in_range(val as int) ==> r == Err::<i64, InvalidInput>(
                InvalidInput { axis, value: val },
            ),
    {
        if val > SCALE || val < 0 {
            Err(InvalidInput { axis, value: val })
        } else {
            Ok(val)
        }
    }

    /// Construct a validated command set from the four raw axes, in the
    /// order throttle, yaw rate, pitch, roll.  Fails with `InvalidInput`
    /// naming the first out-of-range axis in that order; succeeds exactly
    /// when every axis lies in `[0, SCALE]`.
    pub fn new(up_down: i64, rotate_pos_neg: i64, forward_backward: i64, left_right: i64) -> (r:
        Result<TransmitterState, InvalidInput>)
        ensures
            r matches Ok(ts) ==> {
                &&& ts.wf()
                &&& ts.throttle() == up_down
                &&& ts.yaw_rate() == rotate_pos_neg
                &&& ts.pitch() == forward_backward
                &&& ts.roll() == left_right
            },
            r is Ok <==> (in_range(up_down as int) && in_range(rotate_pos_neg as int) && in_range(
                forward_backward as int,
            ) && in_range(left_right as int)),
            !in_range(up_down as int) ==> r == Err::<TransmitterState, InvalidInput>(
                InvalidInput { axis: Axis::Throttle, value: up_down },
            ),
            in_range(up_down as int) && !in_range(rotate_pos_neg as int) ==> r == Err::<
                TransmitterState,
                InvalidInput,
            >(InvalidInput { axis: Axis::YawRate, value: rotate_pos_neg }),
            in_range(up_down as int) && in_range(rotate_pos_neg as int) && !in_range(
                forward_backward as int,
            ) ==> r == Err::<TransmitterState, InvalidInput>(
                InvalidInput { axis: Axis::Pitch, value: forward_backward },
            ),
            in_range(up_down as int) && in_range(rotate_pos_neg as int) && in_range(
                forward_backward as int,
            ) && !in_range(left_right as int) ==> r == Err::<TransmitterState, InvalidInput>(
                InvalidInput { axis: Axis::Roll, value: left_right },
            ),
    {
        let up_down = match Self::validate_input(Axis::Throttle, up_down) {
            Ok(v) => v,
            Err(e) => {
                return Err(e);
            },
        };
        let rotate_pos_neg = match Self::validate_input(Axis::YawRate, rotate_pos_neg) {
            Ok(v) => v,
            Err(e) => {
                return Err(e);
            },
        };
        let forward_backward = match Self::validate_input(Axis::Pitch, forward_backward) {
            Ok(v) => v,
            Err(e) => {
                return Err(e);
            },
        };
        let left_right = match Self::validate_input(Axis::Roll, left_right) {
            Ok(v) => v,
            Err(e) => {
                return Err(e);
            },
        };
        Ok(TransmitterState { up_down, rotate_pos_neg, forward_backward, left_right })
    }

    /// Current throttle axis, in micro-units.
    pub fn get_throttle(&self) -> (r: i64)
        ensures
            r == self.throttle(),
    {
        self.up_down
    }

    /// Current yaw-rotate axis, in micro-units.
    pub fn get_yaw_rate(&self) -> (r: i64)
        ensures
            r == self.yaw_rate(),
    {
        self.rotate_pos_neg
    }

    /// Current pitch axis, in micro-units.
    pub fn get_pitch(&self) -> (r: i64)
        ensures
            r == self.pitch(),
    {
        self.forward_backward
    }

    /// Current roll axis, in micro-units.
    pub fn get_roll(&self) -> (r: i64)
        ensures
            r == self.roll(),
    {
        self.left_right
    }
}

} // verus!
