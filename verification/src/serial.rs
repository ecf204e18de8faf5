//! The binary wire protocol to one motor controller: a delta-step command
//! out, a current-step reply back, each one signed 16-bit big-endian value
//! in two bytes, with no framing and no checksum.  The channel itself
//! stays with the caller: this module encodes commands into bytes, decodes
//! replies from bytes, and decides when an exchange is due at all.

use vstd::prelude::*;
use vstd::arithmetic::div_mod::{lemma_fundamental_div_mod, lemma_div_is_ordered};
use crate::error::Error;
use crate::stepper::{CurrentStep, DeltaSteps};

verus! {

/// The unsigned 16-bit pattern of a signed step count: the count itself
/// when nonnegative, its two's complement otherwise.
pub open spec fn spec_step_pattern(v: i16) -> int {
    if v >= 0 {
        v as int
    } else {
        v + 65536
    }
}

/// The two bytes encoding a signed step count, most significant first.
pub open spec fn spec_encode_steps(v: i16) -> (u8, u8) {
    ((spec_step_pattern(v) / 256) as u8, (spec_step_pattern(v) % 256) as u8)
}

/// The signed step count carried by two big-endian bytes.
pub open spec fn spec_decode_step(hi: u8, lo: u8) -> i16 {
    let pattern = hi * 256 + lo;
    if pattern <= 32767 {
        pattern as i16
    } else {
        (pattern - 65536) as i16
    }
}

/// Law: the codec round-trips.  Decoding the two bytes that encode any
/// signed step count — the extremes of the 16-bit range included — yields
/// that count again.
pub proof fn lemma_codec_round_trip(v: i16)
    ensures
        spec_decode_step(spec_encode_steps(v).0, spec_encode_steps(v).1) == v,
{
    let p = spec_step_pattern(v);
    lemma_fundamental_div_mod(p, 256);
    lemma_div_is_ordered(p, 65535, 256);
}

/// The two big-endian bytes of a step count, most significant first.
fn encode_steps(v: i16) -> (r: (u8, u8))
    ensures
        r == spec_encode_steps(v),
{
    let pattern: u16 = if v >= 0 {
        v as u16
    } else {
        (v as i32 + 65536) as u16
    };
    ((pattern / 256) as u8, (pattern % 256) as u8)
}

/// Appends a delta-step command to the channel's outgoing bytes: the
/// count as a signed 16-bit big-endian value.
pub fn write_steps(channel: &mut Vec<u8>, steps: DeltaSteps)
    ensures
        final(channel)@ == old(channel)@.push(spec_encode_steps(steps.0).0).push(
            spec_encode_steps(steps.0).1,
        ),
{
    let (hi, lo) = encode_steps(steps.0);
    channel.push(hi);
    channel.push(lo);
}

/// Reads the motor controller's reported current step from the start of
/// the channel's incoming bytes: a signed 16-bit big-endian value.  Fewer
/// than two bytes are a malformed reply.
pub fn read_current_step(bytes: &[u8]) -> (r: Result<CurrentStep, Error>)
    ensures
        bytes@.len() >= 2 ==> r == Ok::<CurrentStep, Error>(
            CurrentStep(spec_decode_step(bytes@[0], bytes@[1])),
        ),
        bytes@.len() < 2 ==> r == Err::<CurrentStep, Error>(Error::ProtocolError),
{
    if bytes.len() < 2 {
        return Err(Error::ProtocolError);
    }
    let hi = bytes[0];
    let lo = bytes[1];
    let pattern: u32 = hi as u32 * 256 + lo as u32;
    let v: i16 = if pattern <= 32767 {
        pattern as i16
    } else {
        (pattern as i32 - 65536) as i16
    };
    Ok(CurrentStep(v))
}

/// What the serial sink does with one tick.
#[derive(Clone, Copy, Debug, PartialEq, Eq, Structural)]
pub enum SerialPlan {
    /// No bytes cross the channel; the prior current step stands
    /// unchanged.
    Quiet(CurrentStep),
    /// The two command bytes to write; the controller's two-byte reply
    /// then decodes to the new current step.
    Exchange(u8, u8),
}

/// Law: zero-delta suppression.  The serial sink performs channel I/O for
/// a tick exactly when the delta is nonzero; a zero delta leaves the prior
/// current step as the result, with nothing written and nothing read.
pub fn plan_exchange(delta: DeltaSteps, current: CurrentStep) -> (r: SerialPlan)
    ensures
        delta.0 == 0 ==> r == SerialPlan::Quiet(current),
        delta.0 != 0 ==> r == SerialPlan::Exchange(
            spec_encode_steps(delta.0).0,
            spec_encode_steps(delta.0).1,
        ),
{
    if delta.0 == 0 {
        SerialPlan::Quiet(current)
    } else {
        let (hi, lo) = encode_steps(delta.0);
        SerialPlan::Exchange(hi, lo)
    }
}

} // verus!
