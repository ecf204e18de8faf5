use pen_plotter::path::{Path, Point};
use pen_plotter::run::{telemetry_step, MotionExecutor};
use pen_plotter::stepper::beam::BeamStepper;
use pen_plotter::stepper::central::{CentralStepper, Orientation};
use pen_plotter::stepper::CurrentStep;
use pen_plotter::timer::IntervalTimer;
use pen_plotter::Error;

fn beam() -> BeamStepper {
    BeamStepper::new(1000, (20_000, 80_000), 1_000_000)
}

#[test]
fn executor_runs_a_motion_through_telemetry() {
    let path = Path {
        start: Point { x: 0, y: -20_000 },
        end: Point { x: 0, y: -80_000 },
        velocity: 60_000,
    };
    let mut executor = MotionExecutor::new(beam(), path).unwrap();
    let timer = executor.timer();
    assert_eq!(timer.duration, 1_000_000_000);
    assert_eq!(timer.interval, 1_000_000);
    let mut elapsed: u64 = 0;
    let mut emitted: Vec<i16> = Vec::new();
    loop {
        let point = executor.point_at(elapsed);
        let ctx = executor.tick(elapsed, point).unwrap();
        let (emit, ack) = telemetry_step(&ctx);
        if emit {
            emitted.push(ctx.delta_steps.0);
        }
        executor.acknowledge(ack);
        if timer.is_done(elapsed) {
            executor.finish();
            break;
        }
        // The test clock: a quarter of the motion per tick.
        elapsed += 250_000_000;
    }
    assert_eq!(emitted, vec![250, 250, 250, 250]);
    assert_eq!(executor.current_step(), CurrentStep(1000));
    assert!(!executor.is_running());
    assert!(!executor.has_failed());
}

#[test]
fn stepper_error_aborts_the_run() {
    let path = Path {
        start: Point { x: 0, y: -20_000 },
        end: Point { x: 0, y: -100_000 },
        velocity: 80_000,
    };
    let mut executor = MotionExecutor::new(beam(), path).unwrap();
    // Nine tenths in, the beam would have to reach 92 mm: out of range.
    let point = executor.point_at(900_000_000);
    let err = executor.tick(900_000_000, point).unwrap_err();
    assert_eq!(err, Error::OutOfRange);
    assert!(!executor.is_running());
    assert!(executor.has_failed());
    assert_eq!(executor.current_step(), CurrentStep(0));
}

#[test]
fn degenerate_motion_is_rejected_before_running() {
    let path = Path {
        start: Point { x: 0, y: -20_000 },
        end: Point { x: 0, y: -20_000 },
        velocity: 1_200,
    };
    let err = match MotionExecutor::new(beam(), path) {
        Ok(_) => panic!("a zero-distance motion must be rejected"),
        Err(e) => e,
    };
    assert_eq!(err, Error::InvalidMotion);
}

#[test]
fn central_executor_follows_the_bearing() {
    let path = Path {
        start: Point { x: 10_000, y: -10_000 },
        end: Point { x: 10_000, y: 10_000 },
        velocity: 20_000,
    };
    let stepper = CentralStepper::new(1200, 1_000_000);
    let mut executor = MotionExecutor::new(stepper, path).unwrap();
    // At the end of the motion the bearing points back-right: 135 degrees.
    let duration = executor.timer().duration;
    let point = executor.point_at(duration);
    let ctx = executor
        .tick(duration, orientation_of(point.x as f64, point.y as f64))
        .unwrap();
    assert_eq!(ctx.target_step.0, 450);
}

#[test]
fn sleep_time_saturates_at_zero() {
    let timer = IntervalTimer { duration: 100, interval: 5 };
    assert_eq!(timer.sleep_time(2), 3);
    assert_eq!(timer.sleep_time(5), 0);
    assert_eq!(timer.sleep_time(9), 0);
}

#[test]
fn is_done_only_past_the_duration() {
    let timer = IntervalTimer { duration: 100, interval: 5 };
    assert!(!timer.is_done(99));
    assert!(!timer.is_done(100));
    assert!(timer.is_done(101));
}

/// The fixed-point orientation of a target location, as the unverified
/// shell computes it from the target's coordinates.
fn orientation_of(x: f64, y: f64) -> Orientation {
    let (fx, fy) = (0.0_f64, -1.0_f64);
    let dot = x * fx + y * fy;
    let magnitude = (x * x + y * y).sqrt();
    let angle = (dot / magnitude).acos();
    let signed = if x >= 0.0 { angle } else { -angle };
    let nano_revolutions = (signed / std::f64::consts::TAU * 1e9).round() as i64;
    Orientation { nano_revolutions }
}
