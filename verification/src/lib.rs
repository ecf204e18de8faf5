//! Control library for a two-motor polar plotting mechanism.
//!
//! The library turns one straight-line motion command (start point, end
//! point, velocity) into a stream of per-motor step commands.  All physical
//! quantities are held as fixed-point integers: lengths in micrometers,
//! times in nanoseconds, angles in nano-revolutions.  Floating-point
//! conversions, the wall clock, threads and serial I/O live outside the
//! library; they exchange plain values with it.

mod error;
pub mod math;
pub mod path;
pub mod run;
pub mod serial;
pub mod stepper;
pub mod timer;

pub use error::Error;
