use pen_plotter::path::Point;
use pen_plotter::stepper::beam::BeamStepper;
use pen_plotter::stepper::central::{CentralStepper, Orientation};
use pen_plotter::stepper::{linear_delta_steps, CurrentStep, DeltaSteps, Stepper, TargetStep};
use pen_plotter::Error;

/// The fixed-point orientation of a target location, as the unverified
/// shell computes it: the angle between the target direction and the
/// forward reference (0, -1), signed by the half-plane of x, scaled to
/// nano-revolutions.
fn orientation_of(x: f64, y: f64) -> Orientation {
    let (fx, fy) = (0.0_f64, -1.0_f64);
    let dot = x * fx + y * fy;
    let magnitude = (x * x + y * y).sqrt();
    let angle = (dot / magnitude).acos();
    let signed = if x >= 0.0 { angle } else { -angle };
    let nano_revolutions = (signed / std::f64::consts::TAU * 1e9).round() as i64;
    Orientation { nano_revolutions }
}

fn beam_test_stepper() -> BeamStepper {
    BeamStepper::new(1000, (20_000, 80_000), 0)
}

fn central_test_stepper() -> CentralStepper {
    CentralStepper::new(1200, 0)
}

#[test]
fn default() {
    let expected = BeamStepper::new(2800, (10_000, 80_000), 15_000_000);
    assert_eq!(BeamStepper::default(), expected);
}

#[test]
fn central_default_interval() {
    let stepper = CentralStepper::default();
    assert_eq!(stepper.min_step_interval(), 10_000_000);
}

#[test]
fn target_step() {
    let target = Point { x: 30_000, y: 40_000 };
    let actual = beam_test_stepper().target_step(target).unwrap().0;
    assert_eq!(actual, 500);
}

#[test]
fn target_out_of_reach() {
    let target = Point { x: 100_000, y: 100_000 };
    let _ = beam_test_stepper().target_step(target).unwrap_err();
}

#[test]
fn target_out_of_reach_is_out_of_range() {
    let target = Point { x: 100_000, y: 100_000 };
    let actual = beam_test_stepper().target_step(target).unwrap_err();
    assert_eq!(actual, Error::OutOfRange);
}

#[test]
fn target_step_front_right() {
    let actual = central_test_stepper()
        .target_step(orientation_of(10.0, -10.0))
        .unwrap()
        .0;
    assert_eq!(actual, 150);
}

#[test]
fn target_step_back_right() {
    let actual = central_test_stepper()
        .target_step(orientation_of(10.0, 10.0))
        .unwrap()
        .0;
    assert_eq!(actual, 450);
}

#[test]
fn target_step_back_left() {
    let actual = central_test_stepper()
        .target_step(orientation_of(-10.0, 10.0))
        .unwrap()
        .0;
    assert_eq!(actual, -450);
}

#[test]
fn target_step_front_left() {
    let actual = central_test_stepper()
        .target_step(orientation_of(-10.0, -10.0))
        .unwrap()
        .0;
    assert_eq!(actual, -150);
}

#[test]
fn rotary_delta_wraps_modulo_steps_per_rev() {
    let stepper = central_test_stepper();
    // (current, target, expected delta): the remainder keeps the sign of
    // the raw difference, as the source language's % computes it.
    let cases: [(i16, i16, i16); 7] = [
        (0, 100, 100),
        (100, 0, -100),
        (1100, 100, -1000),
        (100, 1100, 1000),
        (0, 1200, 0),
        (1200, 0, 0),
        (-100, 1300, 200),
    ];
    for (current, target, expected) in cases {
        let actual = stepper
            .delta_steps(CurrentStep(current), TargetStep(target))
            .unwrap();
        assert_eq!(actual, DeltaSteps(expected), "current={current} target={target}");
    }
}

#[test]
fn rotary_delta_spans_exceeding_a_revolution() {
    let stepper = central_test_stepper();
    // 65535 raw steps reduce to 65535 - 54 * 1200 = 735.
    let actual = stepper
        .delta_steps(CurrentStep(-32768), TargetStep(32767))
        .unwrap();
    assert_eq!(actual, DeltaSteps(735));
}

#[test]
fn beam_delta_is_raw_difference() {
    let stepper = beam_test_stepper();
    let actual = stepper
        .delta_steps(CurrentStep(200), TargetStep(50))
        .unwrap();
    assert_eq!(actual, DeltaSteps(-150));
}

#[test]
fn beam_delta_overflow() {
    let actual = linear_delta_steps(CurrentStep(-30_000), TargetStep(30_000)).unwrap_err();
    assert_eq!(actual, Error::StepOverflow);
}

#[test]
fn beam_range_boundaries_map_to_step_extremes() {
    let stepper = beam_test_stepper();
    let near = stepper.target_step(Point { x: 20_000, y: 0 }).unwrap();
    assert_eq!(near, TargetStep(0));
    let far = stepper.target_step(Point { x: 0, y: -80_000 }).unwrap();
    assert_eq!(far, TargetStep(1000));
}

#[test]
fn beam_default_interval() {
    let stepper = BeamStepper::default();
    assert_eq!(stepper.min_step_interval(), 15_000_000);
}

#[test]
fn default_intervals_respect_link_capacity() {
    // Each exchange is 32 bits; at one exchange per interval the bit rate
    // must stay under the 9600 baud of the serial link.
    for interval in [
        BeamStepper::default().min_step_interval(),
        CentralStepper::default().min_step_interval(),
    ] {
        let bit_rate = 32_u64 * 1_000_000_000 / interval;
        assert!(bit_rate <= 9600, "actual = {bit_rate}");
    }
}
