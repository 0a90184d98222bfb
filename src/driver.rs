//! What the drivers decide before and after touching a sequencer: which frame to
//! send for a host command or a throttle, and what a telemetry value decodes to.
use vstd::prelude::*;
use crate::Error;
use crate::encoder::{checksum_ok, encode_word, Command, DShotVariant, Frame};
use crate::erpm::ERpmVarient;
use crate::transport::HostCommand;

verus! {

/// The frame for a throttle (0..=1999), or the bounds error.
pub fn throttle_frame(throttle: u16, request_telemetry: bool, variant: DShotVariant) -> (r: Result<Frame, Error>)
    ensures
        throttle < 2000 ==> (r matches Ok(f) && f.word() == encode_word(
            variant,
            (throttle + 48) as u16,
            request_telemetry,
        ) && f.polarity() == variant),
        throttle >= 2000 ==> r == Err::<Frame, Error>(Error::ThrottleBoundsError { throttle }),
{
    match Frame::from_throttle(throttle, request_telemetry, variant) {
        Some(frame) => Ok(frame),
        None => Err(Error::ThrottleBoundsError { throttle }),
    }
}

/// The frame to broadcast for a host command, asking for telemetry; a throttle
/// out of range is refused once here, before any sequencer is touched.
pub fn host_frame(command: HostCommand, variant: DShotVariant) -> (r: Result<Frame, Error>)
    ensures
        match command {
            HostCommand::Command(c) => r matches Ok(f) && f.word() == encode_word(
                variant,
                c.spec_code() as u16,
                true,
            ) && f.polarity() == variant,
            HostCommand::Throttle(t) => if t < 2000 {
                r matches Ok(f) && f.word() == encode_word(variant, (t + 48) as u16, true) && f.polarity()
                    == variant
            } else {
                r == Err::<Frame, Error>(Error::ThrottleBoundsError { throttle: t })
            },
        },
{
    match command {
        HostCommand::Command(c) => Ok(Frame::from_command(c, true, variant)),
        HostCommand::Throttle(t) => throttle_frame(t, true, variant),
    }
}

/// Decodes a GCR-decoded return-channel value, or the checksum error.
pub fn telemetry_from_raw<V: ERpmVarient>(raw: u16) -> (r: Result<V, Error>)
    ensures
        r is Ok <==> checksum_ok(DShotVariant::Standard, raw),
        r matches Ok(v) ==> v.checksum() as u16 == raw & 0x0Fu16,
        r is Err ==> r == Err::<V, Error>(Error::InvalidTelemetryChecksum),
{
    match V::from_raw(raw) {
        Some(v) => Ok(v),
        None => Err(Error::InvalidTelemetryChecksum),
    }
}

} // verus!
