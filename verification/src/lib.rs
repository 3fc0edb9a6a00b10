//! A mixing-and-stabilization core for an X-configuration quadrotor.
//!
//! Once per control-loop tick the [`controller::Controller`] takes one
//! inertial sample and one validated set of command axes and recomputes the
//! four motor throttle commands.  All quantities are fixed-point integers in
//! micro-units ([`math::SCALE`] micro-units to one unit), so every step of the
//! algorithm is exact, deterministic arithmetic.

pub mod math;
pub mod vector;
pub mod transmitter;
pub mod motors;
pub mod imu;
pub mod controller;
