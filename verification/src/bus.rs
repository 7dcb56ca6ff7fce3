//! Transport capability contracts.
//!
//! A driver in this crate never talks to a platform bus directly: it is
//! generic over one of the small traits below, and the platform (or a test
//! harness) supplies the implementation.  The traits promise almost nothing
//! about the bytes or levels that come back — a sensor's answer is the
//! sensor's business — so every driver is verified for *every* possible
//! response of its transport.

use vstd::prelude::*;

verus! {

/// The underlying addressed-transport call failed (NACK, arbitration loss,
/// transport-level timeout).  Never retried by the drivers.
#[derive(Clone, Copy, Debug, PartialEq, Eq, Structural)]
pub struct BusError;

/// A digital pin operation (drive or sample) failed at the transport level.
#[derive(Clone, Copy, Debug, PartialEq, Eq, Structural)]
pub struct PinError;

/// An addressed register transport: a combined write-then-read transaction
/// (atomic at the transport level) and a plain write, both to a 7-bit bus
/// address.
pub trait RegisterBus {
    /// Write `request` to the device at `address`, then read `count` bytes
    /// back in the same transaction.
    fn write_then_read(&mut self, address: u8, request: &[u8], count: usize) -> (r: Result<
        Vec<u8>,
        BusError,
    >)
        ensures
            r matches Ok(response) ==> response@.len() == count as nat,
    ;

    /// Write `bytes` to the device at `address`.
    fn write(&mut self, address: u8, bytes: &[u8]) -> (r: Result<(), BusError>);
}

/// A bidirectional pin that the host first drives to a logic level and then
/// releases to sample.  Switching between the drive and sample roles must
/// take effect before the next operation.
pub trait TimedPin {
    /// Drive the line high.
    fn drive_high(&mut self) -> (r: Result<(), PinError>);

    /// Drive the line low.
    fn drive_low(&mut self) -> (r: Result<(), PinError>);

    /// Release the line and sample it; true when the line is high.
    fn sample_high(&mut self) -> (r: Result<bool, PinError>);

    /// Release the line and sample it; true when the line is low.
    fn sample_low(&mut self) -> (r: Result<bool, PinError>);
}

/// A blocking busy-wait primitive with millisecond and microsecond
/// granularity.
pub trait Delay {
    /// Busy-wait for `ms` milliseconds.
    fn wait_ms(&mut self, ms: u16);

    /// Busy-wait for `us` microseconds.
    fn wait_us(&mut self, us: u16);
}

/// A push-pull output pin, as used for the display controller's reset,
/// chip-enable and data/command lines.
pub trait OutputPin {
    /// Drive the line high.
    fn set_high(&mut self) -> (r: Result<(), PinError>);

    /// Drive the line low.
    fn set_low(&mut self) -> (r: Result<(), PinError>);
}

/// A write-only serial transport, as used for the display controller.
pub trait SpiWrite {
    /// Clock `bytes` out on the serial bus.
    fn write(&mut self, bytes: &[u8]) -> (r: Result<(), BusError>);
}

} // verus!
