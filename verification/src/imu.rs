//! Bounded history of recent inertial samples: a fixed-capacity ring that
//! always exposes the most recently appended sample.

use vstd::prelude::*;
use crate::vector::Vec3;

verus! {

/// Number of inertial samples the history can hold.
pub const HISTORY_CAPACITY: usize = 10;

/// One inertial measurement: body-frame angular velocity, linear
/// acceleration, and the sample's timestamp, all fixed-point.
#[derive(Clone, Copy, PartialEq, Eq, Structural, Debug)]
pub struct IMUDataPoint {
    pub gyro: Vec3,
    pub accel: Vec3,
    pub time_point: i64,
}

impl IMUDataPoint {
    /// A sample from its three parts.
    pub fn new(gyro: Vec3, accel: Vec3, time_point: i64) -> (r: IMUDataPoint)
        ensures
            r.gyro == gyro,
            r.accel == accel,
            r.time_point == time_point,
    {
        IMUDataPoint { gyro, accel, time_point }
    }
}

impl Default for IMUDataPoint {
    /// The all-zero sample.
    fn default() -> (r: IMUDataPoint)
        ensures
            r.gyro == (Vec3 { x: 0i64, y: 0i64, z: 0i64 }),
            r.accel == (Vec3 { x: 0i64, y: 0i64, z: 0i64 }),
            r.time_point == 0,
    {
        IMUDataPoint::new(Vec3::zeros(), Vec3::zeros(), 0)
    }
}

/// Error returned when the history is queried before any sample has been
/// appended.
#[derive(Clone, Copy, PartialEq, Eq, Structural, Debug)]
pub struct NoData;

/// Bounded sequence of recent inertial samples with fixed capacity,
/// tracking the most recently written entry.
pub struct IMUData {
    imu_data: Vec<IMUDataPoint>,
    data_idx: usize,
    count: usize,
}

impl IMUData {
    /// The samples currently retained, oldest first, newest last: at most
    /// `HISTORY_CAPACITY` of the most recently appended samples.
    pub closed spec fn window(self) -> Seq<IMUDataPoint> {
        Seq::new(
            self.count as nat,
            |i: int|
                self.imu_data@[
                    (((self.data_idx + HISTORY_CAPACITY) as int - (self.count - 1 - i)) % (
                    HISTORY_CAPACITY as int))
                ],
        )
    }

    /// Ring invariant: fixed storage, write index in range, and the slot
    /// count bounded by the capacity.
    pub closed spec fn wf(self) -> bool {
        &&& self.imu_data@.len() == HISTORY_CAPACITY
        &&& self.data_idx < HISTORY_CAPACITY
        &&& self.count <= HISTORY_CAPACITY
    }

    /// An empty history.
    pub fn new() -> (r: IMUData)
        ensures
            r.wf(),
            r.window() == Seq::<IMUDataPoint>::empty(),
    {
        let mut v: Vec<IMUDataPoint> = Vec::new();
        let mut i: usize = 0;
        while i < HISTORY_CAPACITY
            invariant
                v@.len() == i,
                i <= HISTORY_CAPACITY,
            decreases HISTORY_CAPACITY - i,
        {
            v.push(IMUDataPoint::new(Vec3::zeros(), Vec3::zeros(), 0));
            i = i + 1;
        }
        let r = IMUData { imu_data: v, data_idx: 0, count: 0 };
        proof {
            assert(r.window() =~= Seq::<IMUDataPoint>::empty());
        }
        r
    }

    /// Record one sample as the new most-recent entry; once the capacity is
    /// reached the oldest retained sample is overwritten.
    pub fn add_data_point(&mut self, data_point: IMUDataPoint)
        requires
            old(self).wf(),
        ensures
            final(self).wf(),
            final(self).window() == if old(self).window().len() < HISTORY_CAPACITY {
                old(self).window().push(data_point)
            } else {
                old(self).window().subrange(1, HISTORY_CAPACITY as int).push(data_point)
            },
    {
        self.data_idx = (self.data_idx + 1) % HISTORY_CAPACITY;
        let i = self.data_idx;
        self.imu_data.set(i, data_point);
        if self.count < HISTORY_CAPACITY {
            self.count = self.count + 1;
        }
    }

    /// The most recently appended sample, or `NoData` if none has ever been
    /// appended.
    pub fn get_data_point(&self) -> (r: Result<&IMUDataPoint, NoData>)
        requires
            self.wf(),
        ensures
            r is Ok <==> self.window().len() > 0,
            r matches Ok(d) ==> *d == self.window().last(),
    {
        if self.count == 0 {
            Err(NoData)
        } else {
            Ok(&self.imu_data[self.data_idx])
        }
    }
}

} // verus!
