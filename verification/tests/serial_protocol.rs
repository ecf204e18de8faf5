use pen_plotter::serial::{plan_exchange, read_current_step, write_steps, SerialPlan};
use pen_plotter::stepper::{CurrentStep, DeltaSteps};
use pen_plotter::Error;

#[test]
fn codec_round_trips_across_the_signed_range() {
    let values: [i16; 9] = [-32768, -32767, -1000, -1, 0, 1, 255, 1000, 32767];
    for v in values {
        let mut channel: Vec<u8> = Vec::new();
        write_steps(&mut channel, DeltaSteps(v));
        assert_eq!(channel.len(), 2);
        let decoded = read_current_step(&channel).unwrap();
        assert_eq!(decoded, CurrentStep(v), "value {v}");
    }
}

#[test]
fn encoding_is_big_endian() {
    let mut channel: Vec<u8> = Vec::new();
    write_steps(&mut channel, DeltaSteps(0x1234));
    assert_eq!(channel, vec![0x12, 0x34]);
}

#[test]
fn negative_encoding_is_twos_complement() {
    let mut channel: Vec<u8> = Vec::new();
    write_steps(&mut channel, DeltaSteps(-1));
    assert_eq!(channel, vec![0xff, 0xff]);
}

#[test]
fn writes_append_to_the_channel() {
    let mut channel: Vec<u8> = Vec::new();
    write_steps(&mut channel, DeltaSteps(1));
    write_steps(&mut channel, DeltaSteps(-2));
    assert_eq!(channel, vec![0x00, 0x01, 0xff, 0xfe]);
}

#[test]
fn short_reply_is_a_protocol_error() {
    let actual = read_current_step(&[0x12]).unwrap_err();
    assert_eq!(actual, Error::ProtocolError);
    let actual = read_current_step(&[]).unwrap_err();
    assert_eq!(actual, Error::ProtocolError);
}

#[test]
fn error_messages_name_their_cause() {
    assert_eq!(
        Error::ProtocolError.message(),
        "incomplete step reply"
    );
    assert_eq!(
        Error::TransportError.message(),
        "channel read or write failed"
    );
}

#[test]
fn zero_delta_suppresses_io() {
    let plan = plan_exchange(DeltaSteps(0), CurrentStep(7));
    assert_eq!(plan, SerialPlan::Quiet(CurrentStep(7)));
}

#[test]
fn nonzero_delta_exchanges_its_encoding() {
    let plan = plan_exchange(DeltaSteps(-1000), CurrentStep(7));
    let mut channel: Vec<u8> = Vec::new();
    write_steps(&mut channel, DeltaSteps(-1000));
    assert_eq!(plan, SerialPlan::Exchange(channel[0], channel[1]));
}
