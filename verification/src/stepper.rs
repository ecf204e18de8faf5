//! The step domain: signed 16-bit step counters, the motor timing model,
//! and the capability shared by the two motor kinematics.

use vstd::prelude::*;
use crate::error::Error;
use crate::math::{lemma_rounded_div_le, rounded_div, rounded_div_u128};

pub mod beam;
pub mod central;

verus! {

/// The step position a motor is known to stand at.
#[derive(Clone, Copy, Debug, Default, PartialEq, Eq, Structural)]
pub struct CurrentStep(pub i16);

/// The signed step count a motor must move by.
#[derive(Clone, Copy, Debug, Default, PartialEq, Eq, Structural)]
pub struct DeltaSteps(pub i16);

/// The step position a motor is asked to reach.
#[derive(Clone, Copy, Debug, Default, PartialEq, Eq, Structural)]
pub struct TargetStep(pub i16);

/// Nanoseconds of one full revolution per unit angular velocity: one
/// second of nanoseconds times the millidegrees of a turn.  Dividing by
/// `steps_per_rev * millidegrees_per_second` yields a step interval.
pub const INTERVAL_NUMERATOR_NS: u64 = 1_000_000_000 * 360_000;

/// The nanoseconds between steps of a motor that makes
/// `steps_per_rev * max_velocity` millidegree-steps each second, rounded
/// to the nearest nanosecond.
pub open spec fn spec_motor_interval_ns(steps_per_rev: nat, max_velocity: nat) -> nat
    recommends
        steps_per_rev > 0,
        max_velocity > 0,
{
    rounded_div(INTERVAL_NUMERATOR_NS as nat, steps_per_rev * max_velocity)
}

/// A motor's physical timing constants: step density and maximum safe
/// angular velocity (millidegrees per second).
#[derive(Clone, Copy, Debug, PartialEq, Eq, Structural)]
pub(crate) struct Motor {
    pub steps_per_rev: i16,
    pub max_velocity: u32,
}

impl Motor {
    /// The shortest interval at which this motor may be commanded a new
    /// step: the inverse of its maximum step rate.
    pub(crate) fn min_step_interval(self) -> (r: u64)
        requires
            self.steps_per_rev > 0,
            self.max_velocity > 0,
        ensures
            r == spec_motor_interval_ns(self.steps_per_rev as nat, self.max_velocity as nat),
    {
        proof {
            assert(1 <= self.steps_per_rev as int * self.max_velocity as int <= 32767
                * 4_294_967_295int) by (nonlinear_arith)
                requires
                    0 < self.steps_per_rev <= 32767,
                    0 < self.max_velocity <= 4_294_967_295int,
            ;
        }
        let rate: u64 = self.steps_per_rev as u64 * self.max_velocity as u64;
        proof {
            assert(INTERVAL_NUMERATOR_NS as int * 1 <= INTERVAL_NUMERATOR_NS as int * rate)
                by (nonlinear_arith)
                requires rate >= 1,
            ;
            lemma_rounded_div_le(
                INTERVAL_NUMERATOR_NS as nat,
                rate as nat,
                INTERVAL_NUMERATOR_NS as nat,
            );
        }
        let ns: u128 = rounded_div_u128(INTERVAL_NUMERATOR_NS as u128, rate as u128);
        ns as u64
    }
}

/// The raw step difference `target - current`, the delta rule every motor
/// uses unless its axis wraps; it fails when the difference leaves the
/// signed 16-bit step range.
pub open spec fn spec_linear_delta(current: CurrentStep, target: TargetStep) -> Result<
    DeltaSteps,
    Error,
> {
    let diff = target.0 - current.0;
    if i16::MIN <= diff <= i16::MAX {
        Ok(DeltaSteps(diff as i16))
    } else {
        Err(Error::StepOverflow)
    }
}

/// Computes [`spec_linear_delta`]: the raw difference, or `StepOverflow`
/// when it does not fit the step representation.
pub fn linear_delta_steps(current: CurrentStep, target: TargetStep) -> (r: Result<
    DeltaSteps,
    Error,
>)
    ensures
        r == spec_linear_delta(current, target),
{
    let diff: i32 = target.0 as i32 - current.0 as i32;
    if -32768 <= diff && diff <= 32767 {
        Ok(DeltaSteps(diff as i16))
    } else {
        Err(Error::StepOverflow)
    }
}

/// The capability a motion executor needs from a motor: its pacing
/// interval and its kinematics.  Each implementation fixes what a target
/// is — a location for the telescoping beam, a bearing orientation for
/// the rotary axis — and pins both kinematic functions down to exact
/// specification-level definitions.
pub trait Stepper: Sized {
    /// The per-tick input this motor's kinematics read.
    type Target;

    /// The configuration invariant established at construction.
    spec fn wf(&self) -> bool;

    /// The targets the kinematics accept.
    spec fn target_wf(&self, target: Self::Target) -> bool;

    /// The exact pacing interval, in nanoseconds.
    spec fn spec_min_step_interval(&self) -> u64;

    /// The exact value of [`Stepper::target_step`].
    spec fn spec_target_step(&self, target: Self::Target) -> Result<TargetStep, Error>;

    /// The exact value of [`Stepper::delta_steps`].
    spec fn spec_delta_steps(&self, current: CurrentStep, target: TargetStep) -> Result<
        DeltaSteps,
        Error,
    >;

    /// A short label naming the motor in telemetry records.
    fn name(&self) -> &'static str;

    /// The fastest rate at which it is physically safe to command a step.
    fn min_step_interval(&self) -> (r: u64)
        requires
            self.wf(),
        ensures
            r == self.spec_min_step_interval(),
    ;

    /// The step position that would place the motor at `target`.
    fn target_step(&self, target: Self::Target) -> (r: Result<TargetStep, Error>)
        requires
            self.wf(),
            self.target_wf(target),
        ensures
            r == self.spec_target_step(target),
    ;

    /// The step count to command so that the motor moves from `current`
    /// toward `target`.
    fn delta_steps(&self, current: CurrentStep, target: TargetStep) -> (r: Result<
        DeltaSteps,
        Error,
    >)
        requires
            self.wf(),
        ensures
            r == self.spec_delta_steps(current, target),
    ;
}

} // verus!
