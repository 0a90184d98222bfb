//! Verified building blocks for driving DShot electronic speed controllers from
//! the RP2040's programmable I/O sequencers: frame and telemetry codecs, timing
//! tables and sequencer programs, a two-slot telemetry relay and the host
//! transport state machine.
use vstd::prelude::*;

pub mod encoder;
pub mod telemetry;
pub mod erpm;
pub mod relay;
pub mod program;
mod assembly;
pub mod transport;
pub mod driver;
pub mod spi;

pub use program::{BdDShotTimings, StandardDShotTimings};

verus! {

/// Errors of the driver and its configuration.
#[derive(Debug, Clone, Copy, PartialEq, Eq, Structural)]
pub enum Error {
    /// Throttle commands must be in the range 0..=1999.
    ThrottleBoundsError { throttle: u16 },
    /// A sequencer or telemetry channel did not answer in time.
    TimeoutError,
    /// No telemetry value was waiting.
    TryReceiveError,
    /// The checksum of a telemetry value did not match.
    InvalidTelemetryChecksum,
    /// A sequencer's input queue was full.
    TxTryPushFaliure,
    /// A background task could not be started.
    SpawnError,
    /// No timing table exists for the configuration.
    Timing(program::TimingError),
}

} // verus!
