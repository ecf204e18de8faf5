//! One motor's control loop as a verified state machine.
//!
//! The caller owns the wall clock, the thread and the sink's I/O; the
//! library owns every decision.  Each tick the caller reports the elapsed
//! nanoseconds and the motor's per-tick target; the executor interpolates
//! the path, runs the kinematics, computes the delta against its running
//! current step, and packages the tick for the sink.  Any kinematics error
//! fails the executor for good: no further tick can be driven through it.

use vstd::prelude::*;
use crate::error::Error;
use crate::path::{Path, Point};
use crate::stepper::{CurrentStep, DeltaSteps, Stepper, TargetStep};
use crate::timer::{Fraction, IntervalTimer};

verus! {

/// Everything one tick hands to the output sink.
#[derive(Clone, Copy, Debug, PartialEq)]
pub struct IntervalContext {
    /// Which motor the tick belongs to.
    pub stepper_name: &'static str,
    /// The interpolated location the motion has reached.
    pub point: Point,
    /// The position the motor stood at before this tick.
    pub current_step: CurrentStep,
    /// The step count the motor is asked to move by.
    pub delta_steps: DeltaSteps,
    /// The position the motor is asked to reach.
    pub target_step: TargetStep,
}

/// Where an executor's loop stands.
#[derive(Clone, Copy, Debug, PartialEq, Eq, Structural)]
pub enum ExecutorState {
    /// Ticks may be driven.
    Running,
    /// The motion's duration has fully elapsed.
    Done,
    /// A kinematics error aborted the run; no tick may follow.
    Failed,
}

/// Binds one stepper to one path and carries the loop's running state:
/// the authoritative current step and whether the run still lives.
pub struct MotionExecutor<S: Stepper> {
    stepper: S,
    path: Path,
    timer: IntervalTimer,
    current: CurrentStep,
    state: ExecutorState,
}

impl<S: Stepper> MotionExecutor<S> {
    /// The stepper this executor drives.
    pub closed spec fn spec_stepper(&self) -> S {
        self.stepper
    }

    /// The commanded motion.
    pub closed spec fn spec_path(&self) -> Path {
        self.path
    }

    /// The pacing derived at construction: the path's duration and the
    /// stepper's minimum step interval.
    pub closed spec fn spec_timer(&self) -> IntervalTimer {
        self.timer
    }

    /// The position the motor is known to stand at.
    pub closed spec fn spec_current(&self) -> CurrentStep {
        self.current
    }

    /// Where the loop stands.
    pub closed spec fn spec_state(&self) -> ExecutorState {
        self.state
    }

    /// The executor's invariant: valid stepper and path, and a timer that
    /// really carries the path's duration and the stepper's interval.
    pub open spec fn wf(&self) -> bool {
        &&& self.spec_stepper().wf()
        &&& self.spec_path().wf()
        &&& self.spec_timer().wf()
        &&& self.spec_timer().duration == self.spec_path().spec_duration_ns()
        &&& self.spec_timer().interval == self.spec_stepper().spec_min_step_interval()
    }

    /// Binds `stepper` to `path`, deriving the pacing: the motion's
    /// duration and the motor's minimum step interval.  A degenerate
    /// motion — zero distance or zero velocity — is rejected here, before
    /// anything runs.
    pub fn new(stepper: S, path: Path) -> (r: Result<Self, Error>)
        requires
            stepper.wf(),
            path.wf(),
        ensures
            r is Err <==> (path.spec_distance() == 0 || path.velocity == 0),
            r is Err ==> r->Err_0 == Error::InvalidMotion,
            r is Ok ==> ({
                let e = r->Ok_0;
                &&& e.wf()
                &&& e.spec_stepper() == stepper
                &&& e.spec_path() == path
                &&& e.spec_current() == CurrentStep(0)
                &&& e.spec_state() == ExecutorState::Running
            }),
    {
        let duration: u64 = match path.duration() {
            Ok(d) => d,
            Err(e) => {
                return Err(e);
            },
        };
        let interval: u64 = stepper.min_step_interval();
        Ok(
            MotionExecutor {
                stepper,
                path,
                timer: IntervalTimer { duration, interval },
                current: CurrentStep(0),
                state: ExecutorState::Running,
            },
        )
    }

    /// The pacing values the caller's loop runs on.
    pub fn timer(&self) -> (r: IntervalTimer)
        ensures
            r == self.spec_timer(),
    {
        self.timer
    }

    /// The position the motor is known to stand at.
    pub fn current_step(&self) -> (r: CurrentStep)
        ensures
            r == self.spec_current(),
    {
        self.current
    }

    /// Whether ticks may still be driven.
    pub fn is_running(&self) -> (r: bool)
        ensures
            r == (self.spec_state() == ExecutorState::Running),
    {
        match self.state {
            ExecutorState::Running => true,
            _ => false,
        }
    }

    /// Whether a kinematics error aborted the run.
    pub fn has_failed(&self) -> (r: bool)
        ensures
            r == (self.spec_state() == ExecutorState::Failed),
    {
        match self.state {
            ExecutorState::Failed => true,
            _ => false,
        }
    }

    /// The location the motion has reached after `elapsed` nanoseconds:
    /// the path interpolated at the elapsed share of the total duration.
    pub fn point_at(&self, elapsed: u64) -> (r: Point)
        requires
            self.wf(),
        ensures
            r == self.spec_path().spec_interpolate(
                Fraction { num: elapsed, den: self.spec_timer().duration },
            ),
            r.wf(),
    {
        let fraction = self.timer.fraction_at(elapsed);
        self.path.interpolate(fraction)
    }

    /// Drives one tick: interpolates the point at `elapsed`, runs the
    /// kinematics on `target` (which the caller derived from that point),
    /// computes the delta against the running current step, and packages
    /// the tick for the sink.  Law: failure is fatal — on any kinematics
    /// error the executor leaves `Running` for good, so no further tick
    /// can be driven, and the current step is untouched.
    pub fn tick(&mut self, elapsed: u64, target: S::Target) -> (r: Result<IntervalContext, Error>)
        requires
            old(self).wf(),
            old(self).spec_state() == ExecutorState::Running,
            old(self).spec_stepper().target_wf(target),
        ensures
            final(self).wf(),
            final(self).spec_stepper() == old(self).spec_stepper(),
            final(self).spec_path() == old(self).spec_path(),
            final(self).spec_timer() == old(self).spec_timer(),
            final(self).spec_current() == old(self).spec_current(),
            ({
                let stepper = old(self).spec_stepper();
                let current = old(self).spec_current();
                let point = old(self).spec_path().spec_interpolate(
                    Fraction { num: elapsed, den: old(self).spec_timer().duration },
                );
                match r {
                    Ok(ctx) => {
                        &&& final(self).spec_state() == ExecutorState::Running
                        &&& ctx.point == point
                        &&& ctx.current_step == current
                        &&& stepper.spec_target_step(target) == Ok::<TargetStep, Error>(
                            ctx.target_step,
                        )
                        &&& stepper.spec_delta_steps(current, ctx.target_step) == Ok::<
                            DeltaSteps,
                            Error,
                        >(ctx.delta_steps)
                    },
                    Err(e) => {
                        &&& final(self).spec_state() == ExecutorState::Failed
                        &&& (stepper.spec_target_step(target) == Err::<TargetStep, Error>(e) || (
                        stepper.spec_target_step(target) is Ok && stepper.spec_delta_steps(
                            current,
                            stepper.spec_target_step(target)->Ok_0,
                        ) == Err::<DeltaSteps, Error>(e)))
                    },
                }
            }),
    {
        let point = self.point_at(elapsed);
        let target_step = match self.stepper.target_step(target) {
            Ok(t) => t,
            Err(e) => {
                self.state = ExecutorState::Failed;
                return Err(e);
            },
        };
        let delta_steps = match self.stepper.delta_steps(self.current, target_step) {
            Ok(d) => d,
            Err(e) => {
                self.state = ExecutorState::Failed;
                return Err(e);
            },
        };
        Ok(
            IntervalContext {
                stepper_name: self.stepper.name(),
                point,
                current_step: self.current,
                delta_steps,
                target_step,
            },
        )
    }

    /// Records the sink's reported position as the authoritative current
    /// step: hardware acknowledgement, not the computed target, decides
    /// where the motor stands.
    pub fn acknowledge(&mut self, reported: CurrentStep)
        requires
            old(self).wf(),
            old(self).spec_state() == ExecutorState::Running,
        ensures
            final(self).wf(),
            final(self).spec_stepper() == old(self).spec_stepper(),
            final(self).spec_path() == old(self).spec_path(),
            final(self).spec_timer() == old(self).spec_timer(),
            final(self).spec_state() == old(self).spec_state(),
            final(self).spec_current() == reported,
    {
        self.current = reported;
    }

    /// Ends the run successfully, once the caller's timer reports the
    /// whole duration elapsed.
    pub fn finish(&mut self)
        requires
            old(self).wf(),
            old(self).spec_state() == ExecutorState::Running,
        ensures
            final(self).wf(),
            final(self).spec_stepper() == old(self).spec_stepper(),
            final(self).spec_path() == old(self).spec_path(),
            final(self).spec_timer() == old(self).spec_timer(),
            final(self).spec_current() == old(self).spec_current(),
            final(self).spec_state() == ExecutorState::Done,
    {
        self.state = ExecutorState::Done;
    }
}

/// The telemetry sink's decision for one tick: a record is emitted exactly
/// for a nonzero delta, and the computed target is reported back as the
/// achieved position — without hardware there is no real feedback.
pub fn telemetry_step(interval: &IntervalContext) -> (r: (bool, CurrentStep))
    ensures
        r.0 == (interval.delta_steps.0 != 0),
        r.1 == CurrentStep(interval.target_step.0),
{
    (interval.delta_steps.0 != 0, CurrentStep(interval.target_step.0))
}

} // verus!
