//! The rotary motor: the central bearing whose step position tracks the
//! signed angle between the target's direction and the fixed forward
//! reference direction.
//!
//! The angle itself comes from trigonometry on the target's coordinates,
//! which the caller performs; it enters the library as an [`Orientation`]
//! in fixed-point nano-revolutions.  Everything from there on — scaling
//! to steps, rounding, the wrapping delta of the closed ring — is exact
//! integer arithmetic and verified here.

use vstd::prelude::*;
use crate::error::Error;
use crate::math::{
    lemma_rounded_div_exact, lemma_rounded_div_le, lemma_wrap_delta_bounds, rounded_div,
    rounded_div_u128, wrap_delta,
};
use crate::stepper::{CurrentStep, DeltaSteps, Motor, Stepper, TargetStep};

verus! {

/// Fixed-point scale of one full revolution: orientations are counted in
/// billionths of a turn.
pub const NANO_REVOLUTION: i64 = 1_000_000_000;

/// A bearing orientation as a signed fraction of a revolution, in
/// nano-revolutions: the magnitude is the angle between the target's
/// direction and the forward reference, the sign follows the half-plane
/// the target lies in.
#[derive(Clone, Copy, Debug, Default, PartialEq, Eq, Structural)]
pub struct Orientation {
    pub nano_revolutions: i64,
}

impl Orientation {
    /// An angle between two directions is at most half a revolution
    /// either way.
    pub open spec fn wf(&self) -> bool {
        -NANO_REVOLUTION / 2 <= self.nano_revolutions <= NANO_REVOLUTION / 2
    }

    /// The orientation's magnitude, in nano-revolutions.
    pub open spec fn spec_magnitude(&self) -> nat {
        if self.nano_revolutions >= 0 {
            self.nano_revolutions as nat
        } else {
            (-self.nano_revolutions) as nat
        }
    }
}

/// The rotary stepper: the ring's step density and the motor's pacing
/// interval in nanoseconds.
#[derive(Clone, Copy, Debug, PartialEq, Eq, Structural)]
pub struct CentralStepper {
    steps_per_rev: i16,
    min_step_interval: u64,
}

impl CentralStepper {
    /// Steps in one full revolution of the bearing.
    pub closed spec fn spec_steps_per_rev(&self) -> i16 {
        self.steps_per_rev
    }

    /// The pacing interval, in nanoseconds.
    pub closed spec fn spec_interval(&self) -> u64 {
        self.min_step_interval
    }

    /// A usable configuration: a positive ring size.
    pub open spec fn wf(&self) -> bool {
        0 < self.spec_steps_per_rev()
    }

    /// Builds a stepper from already-derived quantities.
    pub fn new(steps_per_rev: i16, min_step_interval: u64) -> (r: Self)
        requires
            0 < steps_per_rev,
        ensures
            r.spec_steps_per_rev() == steps_per_rev,
            r.spec_interval() == min_step_interval,
            r.wf(),
    {
        CentralStepper { steps_per_rev, min_step_interval }
    }
}

impl Stepper for CentralStepper {
    type Target = Orientation;

    open spec fn wf(&self) -> bool {
        CentralStepper::wf(self)
    }

    open spec fn target_wf(&self, target: Orientation) -> bool {
        target.wf()
    }

    open spec fn spec_min_step_interval(&self) -> u64 {
        self.spec_interval()
    }

    /// The orientation scaled from revolutions to the ring's steps,
    /// rounded to the nearest step with halves away from zero.
    open spec fn spec_target_step(&self, target: Orientation) -> Result<TargetStep, Error> {
        let steps = rounded_div(
            (self.spec_steps_per_rev() * target.spec_magnitude()) as nat,
            NANO_REVOLUTION as nat,
        );
        if steps <= i16::MAX {
            if target.nano_revolutions >= 0 {
                Ok(TargetStep(steps as i16))
            } else {
                Ok(TargetStep((-(steps as int)) as i16))
            }
        } else {
            Err(Error::StepOverflow)
        }
    }

    /// The bearing is a closed ring: the commanded delta is the raw
    /// difference reduced modulo one revolution's steps, keeping the sign
    /// of the difference.
    open spec fn spec_delta_steps(&self, current: CurrentStep, target: TargetStep) -> Result<
        DeltaSteps,
        Error,
    > {
        Ok(
            DeltaSteps(
                wrap_delta(target.0 - current.0, self.spec_steps_per_rev() as int) as i16,
            ),
        )
    }

    fn name(&self) -> &'static str {
        "central stepper"
    }

    fn min_step_interval(&self) -> (r: u64) {
        self.min_step_interval
    }

    fn target_step(&self, target: Orientation) -> (r: Result<TargetStep, Error>) {
        let magnitude: u64 = if target.nano_revolutions >= 0 {
            target.nano_revolutions as u64
        } else {
            (-target.nano_revolutions) as u64
        };
        proof {
            assert(self.steps_per_rev as int * magnitude as int <= 32767 * 500_000_000int)
                by (nonlinear_arith)
                requires
                    0 < self.steps_per_rev <= 32767,
                    0 <= magnitude <= 500_000_000,
            ;
            assert(self.steps_per_rev as int * magnitude as int <= 16384 * 1_000_000_000int)
                by (nonlinear_arith)
                requires self.steps_per_rev as int * magnitude as int <= 32767 * 500_000_000int,
            ;
            lemma_rounded_div_le(
                (self.steps_per_rev as u64 * magnitude) as nat,
                1_000_000_000nat,
                16384nat,
            );
        }
        let num: u64 = self.steps_per_rev as u64 * magnitude;
        let steps128: u128 = rounded_div_u128(num as u128, 1_000_000_000u128);
        let steps: u64 = steps128 as u64;
        if steps <= 32767 {
            if target.nano_revolutions >= 0 {
                Ok(TargetStep(steps as i16))
            } else {
                Ok(TargetStep(-(steps as i16)))
            }
        } else {
            Err(Error::StepOverflow)
        }
    }

    fn delta_steps(&self, current: CurrentStep, target: TargetStep) -> (r: Result<
        DeltaSteps,
        Error,
    >) {
        let diff: i32 = target.0 as i32 - current.0 as i32;
        let ring: u32 = self.steps_per_rev as u32;
        let wrapped: i32 = if diff >= 0 {
            ((diff as u32) % ring) as i32
        } else {
            -((((-diff) as u32) % ring) as i32)
        };
        Ok(DeltaSteps(wrapped as i16))
    }
}

/// Law: the rotary delta wraps.  For every current and target position the
/// rotary delta exists, is strictly shorter than one revolution, keeps the
/// sign of the raw difference, and differs from the raw difference by a
/// whole number of revolutions — never the raw subtraction itself once it
/// leaves the ring.
pub proof fn lemma_rotary_delta_wraps(
    stepper: CentralStepper,
    current: CurrentStep,
    target: TargetStep,
)
    requires
        stepper.wf(),
    ensures
        stepper.spec_delta_steps(current, target) is Ok,
        ({
            let ring = stepper.spec_steps_per_rev() as int;
            let delta = stepper.spec_delta_steps(current, target)->Ok_0.0 as int;
            let diff = target.0 - current.0;
            &&& -ring < delta < ring
            &&& (diff - delta) % ring == 0
            &&& diff >= 0 ==> delta >= 0
            &&& diff < 0 ==> delta <= 0
        }),
{
    lemma_wrap_delta_bounds(target.0 - current.0, stepper.spec_steps_per_rev() as int);
}

/// The plotter's central motor as physically built: 400 steps per
/// revolution, at most 90 degrees per second.
impl Default for CentralStepper {
    fn default() -> (r: Self)
        ensures
            r.wf(),
            r.spec_steps_per_rev() == 400,
            r.spec_interval() == 10_000_000,
    {
        proof {
            assert(400nat * 90_000nat == 36_000_000nat) by (nonlinear_arith);
            assert(2 * 36_000_000nat * 10_000_000nat == 720_000_000_000_000nat)
                by (nonlinear_arith);
            lemma_rounded_div_exact(
                360_000_000_000_000nat,
                36_000_000nat,
                10_000_000nat,
                36_000_000nat,
            );
        }
        let motor = Motor { steps_per_rev: 400, max_velocity: 90_000 };
        CentralStepper { steps_per_rev: 400, min_step_interval: motor.min_step_interval() }
    }
}

} // verus!
