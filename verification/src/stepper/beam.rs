//! The radial motor: a linear actuator telescoping the beam, whose step
//! position tracks the target's distance from the origin.

use vstd::prelude::*;
use crate::error::Error;
use crate::math::{lemma_rounded_div_exact, lemma_rounded_div_le, rounded_div, rounded_div_u128};
use crate::path::Point;
use crate::stepper::{
    linear_delta_steps, spec_linear_delta, spec_motor_interval_ns, CurrentStep, DeltaSteps, Motor,
    Stepper, TargetStep,
};

verus! {

/// The radial stepper: a travel range in micrometers spanned by a fixed
/// total step count, plus the motor's pacing interval in nanoseconds.
#[derive(Clone, Copy, Debug, PartialEq, Eq)]
pub struct BeamStepper {
    total_steps: i16,
    range: (i64, i64),
    min_step_interval: u64,
}

impl BeamStepper {
    /// The step count spanning the whole travel range.
    pub closed spec fn spec_total_steps(&self) -> i16 {
        self.total_steps
    }

    /// The physical travel range `[min_reach, max_reach]`, in micrometers.
    pub closed spec fn spec_range(&self) -> (i64, i64) {
        self.range
    }

    /// The pacing interval, in nanoseconds.
    pub closed spec fn spec_interval(&self) -> u64 {
        self.min_step_interval
    }

    /// A usable configuration: a positive step count over a nonempty,
    /// nonnegative range within the library's working bounds.
    pub open spec fn wf(&self) -> bool {
        &&& 0 < self.spec_total_steps()
        &&& 0 <= self.spec_range().0 < self.spec_range().1 <= 2_000_000_000
    }

    /// The step for an in-range distance: the distance's position within
    /// the range, scaled to the total step count and rounded to the
    /// nearest step.
    pub open spec fn spec_step_for_distance(&self, distance: int) -> nat
        recommends
            self.wf(),
            self.spec_range().0 <= distance <= self.spec_range().1,
    {
        rounded_div(
            (self.spec_total_steps() * (distance - self.spec_range().0)) as nat,
            (self.spec_range().1 - self.spec_range().0) as nat,
        )
    }

    /// Builds a stepper from already-derived quantities.
    pub fn new(total_steps: i16, range: (i64, i64), min_step_interval: u64) -> (r: Self)
        requires
            0 < total_steps,
            0 <= range.0 < range.1 <= 2_000_000_000,
        ensures
            r.spec_total_steps() == total_steps,
            r.spec_range() == range,
            r.spec_interval() == min_step_interval,
            r.wf(),
    {
        BeamStepper { total_steps, range, min_step_interval }
    }
}

impl Stepper for BeamStepper {
    type Target = Point;

    open spec fn wf(&self) -> bool {
        BeamStepper::wf(self)
    }

    open spec fn target_wf(&self, target: Point) -> bool {
        target.wf()
    }

    open spec fn spec_min_step_interval(&self) -> u64 {
        self.spec_interval()
    }

    /// The target's distance from the origin must fall in the travel
    /// range; the step is its linear image in the step span.
    open spec fn spec_target_step(&self, target: Point) -> Result<TargetStep, Error> {
        let distance = target.spec_magnitude() as int;
        if distance < self.spec_range().0 || distance > self.spec_range().1 {
            Err(Error::OutOfRange)
        } else {
            let step = self.spec_step_for_distance(distance);
            if step <= i16::MAX {
                Ok(TargetStep(step as i16))
            } else {
                Err(Error::StepOverflow)
            }
        }
    }

    /// The beam axis does not wrap: the delta is the raw difference.
    open spec fn spec_delta_steps(&self, current: CurrentStep, target: TargetStep) -> Result<
        DeltaSteps,
        Error,
    > {
        spec_linear_delta(current, target)
    }

    fn name(&self) -> &'static str {
        "beam stepper"
    }

    fn min_step_interval(&self) -> (r: u64) {
        self.min_step_interval
    }

    fn target_step(&self, target: Point) -> (r: Result<TargetStep, Error>) {
        let distance: u64 = target.distance_from_origin();
        let min: i64 = self.range.0;
        let max: i64 = self.range.1;
        if distance < min as u64 || distance > max as u64 {
            return Err(Error::OutOfRange);
        }
        let offset: u64 = distance - min as u64;
        let span: u64 = (max - min) as u64;
        proof {
            assert(self.total_steps as int * offset as int <= 32767 * 2_000_000_000int)
                by (nonlinear_arith)
                requires
                    0 < self.total_steps <= 32767,
                    0 <= offset <= 2_000_000_000,
            ;
            assert(self.total_steps as int * offset as int <= self.total_steps as int
                * span as int) by (nonlinear_arith)
                requires
                    0 <= self.total_steps,
                    0 <= offset <= span,
            ;
            lemma_rounded_div_le(
                (self.total_steps as u64 * offset) as nat,
                span as nat,
                self.total_steps as nat,
            );
        }
        let num: u64 = self.total_steps as u64 * offset;
        let step128: u128 = rounded_div_u128(num as u128, span as u128);
        let step: u64 = step128 as u64;
        if step <= 32767 {
            Ok(TargetStep(step as i16))
        } else {
            Err(Error::StepOverflow)
        }
    }

    fn delta_steps(&self, current: CurrentStep, target: TargetStep) -> (r: Result<
        DeltaSteps,
        Error,
    >) {
        linear_delta_steps(current, target)
    }
}

/// Law: the travel range maps linearly onto the step span — its near end
/// to step zero, its far end to the full step count.
pub proof fn lemma_beam_range_extremes(stepper: BeamStepper)
    requires
        stepper.wf(),
    ensures
        stepper.spec_step_for_distance(stepper.spec_range().0 as int) == 0,
        stepper.spec_step_for_distance(stepper.spec_range().1 as int)
            == stepper.spec_total_steps(),
{
    let total = stepper.spec_total_steps() as int;
    let span = (stepper.spec_range().1 - stepper.spec_range().0) as nat;
    assert(total * 0 == 0) by (nonlinear_arith);
    lemma_rounded_div_le(0nat, span, 0nat);
    assert(2 * (total * span) + span == 2 * span * total + span) by (nonlinear_arith);
    lemma_rounded_div_exact((total * span) as nat, span, total as nat, span);
}

/// The fixed physical constants the radial motor is built from: a travel
/// range in millimeters, the beam travel per motor revolution, the step
/// density, and the maximum angular velocity in millidegrees per second.
#[derive(Clone, Copy, Debug, PartialEq, Eq)]
struct Builder {
    range: (i16, i16),
    output_per_rev: i16,
    steps_per_rev: i16,
    max_velocity: u32,
}

impl Builder {
    /// Derives and caches the stepper's working quantities: the total
    /// step count spanning the range, the range in micrometers, and the
    /// motor's pacing interval.
    fn build(self) -> (r: BeamStepper)
        requires
            0 < self.steps_per_rev,
            0 < self.output_per_rev,
            0 < self.max_velocity,
            0 <= self.range.0 < self.range.1,
            0 < (self.range.1 - self.range.0) * self.steps_per_rev as int / self.output_per_rev as int <= 32767,
        ensures
            r.wf(),
            r.spec_total_steps() == (self.range.1 - self.range.0) * self.steps_per_rev as int
                / self.output_per_rev as int,
            r.spec_range() == ((self.range.0 * 1000) as i64, (self.range.1 * 1000) as i64),
            r.spec_interval() == spec_motor_interval_ns(
                self.steps_per_rev as nat,
                self.max_velocity as nat,
            ),
    {
        let span: u64 = (self.range.1 - self.range.0) as u64;
        proof {
            assert(0 <= span as int * self.steps_per_rev as int <= 65535 * 32767int)
                by (nonlinear_arith)
                requires
                    0 <= span <= 65535,
                    0 < self.steps_per_rev <= 32767,
            ;
        }
        let total: u64 = span * self.steps_per_rev as u64 / self.output_per_rev as u64;
        let motor = Motor { steps_per_rev: self.steps_per_rev, max_velocity: self.max_velocity };
        BeamStepper {
            total_steps: total as i16,
            range: (self.range.0 as i64 * 1000, self.range.1 as i64 * 1000),
            min_step_interval: motor.min_step_interval(),
        }
    }
}

/// The plotter's radial motor as physically built: 10–80 mm of reach,
/// 10 mm of travel per revolution, 400 steps per revolution, at most 60
/// degrees per second.
impl Default for BeamStepper {
    fn default() -> (r: Self)
        ensures
            r.wf(),
            r.spec_total_steps() == 2800,
            r.spec_range() == (10_000i64, 80_000i64),
            r.spec_interval() == 15_000_000,
    {
        proof {
            assert(400nat * 60_000nat == 24_000_000nat) by (nonlinear_arith);
            assert(2 * 24_000_000nat * 15_000_000nat == 720_000_000_000_000nat)
                by (nonlinear_arith);
            lemma_rounded_div_exact(
                360_000_000_000_000nat,
                24_000_000nat,
                15_000_000nat,
                24_000_000nat,
            );
        }
        let builder = Builder {
            range: (10, 80),
            output_per_rev: 10,
            steps_per_rev: 400,
            max_velocity: 60_000,
        };
        builder.build()
    }
}

} // verus!
