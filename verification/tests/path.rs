use pen_plotter::path::{Path, Point};
use pen_plotter::timer::Fraction;
use pen_plotter::Error;

fn path(start: (i64, i64), end: (i64, i64), velocity: i64) -> Path {
    Path {
        start: Point { x: start.0, y: start.1 },
        end: Point { x: end.0, y: end.1 },
        velocity,
    }
}

#[test]
fn interpolate() {
    let path = path((0, 0), (12_000, 16_000), 1_200);
    let actual = path.interpolate(Fraction { num: 3, den: 4 });
    let expected = Point { x: 9_000, y: 12_000 };
    assert_eq!(actual, expected);
}

#[test]
fn duration() {
    let path = path((0, 0), (3_000, 4_000), 50_000);
    let actual = path.duration().unwrap();
    assert_eq!(actual, 100_000_000);
}

#[test]
fn duration_zero_distance() {
    let path = path((0, 0), (0, 0), 50_000);
    let _ = path.duration().unwrap_err();
}

#[test]
fn duration_zero_velocity() {
    let path = path((2_000, 1_000), (3_000, 5_000), 0);
    let _ = path.duration().unwrap_err();
}

#[test]
fn distance() {
    let path = path((0, 0), (3_000, 4_000), 1_200);
    let actual = path.distance();
    assert_eq!(actual, 5_000);
}

#[test]
fn duration_failure_is_invalid_motion() {
    let zero_distance = path((7_000, -2_000), (7_000, -2_000), 50_000);
    assert_eq!(zero_distance.duration().unwrap_err(), Error::InvalidMotion);
    let zero_velocity = path((0, 0), (3_000, 4_000), 0);
    assert_eq!(zero_velocity.duration().unwrap_err(), Error::InvalidMotion);
}

#[test]
fn duration_uses_velocity_magnitude() {
    let forward = path((0, 0), (3_000, 4_000), 50_000);
    let backward = path((0, 0), (3_000, 4_000), -50_000);
    assert_eq!(forward.duration().unwrap(), backward.duration().unwrap());
}

#[test]
fn interpolate_clamps_to_start() {
    let path = path((-1_000, 2_000), (5_000, -4_000), 1_200);
    let at_zero = path.interpolate(Fraction { num: 0, den: 10 });
    assert_eq!(at_zero, Point { x: -1_000, y: 2_000 });
}

#[test]
fn interpolate_clamps_to_end() {
    let path = path((-1_000, 2_000), (5_000, -4_000), 1_200);
    let beyond = path.interpolate(Fraction { num: 17, den: 10 });
    assert_eq!(beyond, Point { x: 5_000, y: -4_000 });
}

#[test]
fn interpolate_rounds_to_nearest_micrometer() {
    // One third of a 1000 um span is 333.33... um; the nearest grid point.
    let path = path((0, 0), (1_000, 0), 1_200);
    let third = path.interpolate(Fraction { num: 1, den: 3 });
    assert_eq!(third, Point { x: 333, y: 0 });
}

#[test]
fn default_path() {
    let actual = Path::default();
    let expected = path((0, -10_000), (0, 0), 1_200);
    assert_eq!(actual, expected);
}
