//! Driver for a bit-banged single-wire hygro/thermometer.
//!
//! The exchange runs synchronously on one pin: the host drives a request
//! pulse, releases the line, discards the sensor's acknowledgement bit, and
//! then decodes 40 data bits into 5 bytes, most-significant bit first.  Each
//! bit is read by timing the line's low phase and then its high phase under
//! a fixed microsecond budget; the bit is 1 when the high phase outlasted
//! the low phase.  The low byte of the wraparound sum of the four data bytes
//! must equal the fifth byte, or the frame is discarded.

use vstd::prelude::*;

use crate::bus::{Delay, TimedPin};
use crate::sensors::{HumidityReading, TemperatureReading};

verus! {

/// Budget, in microseconds, for each pulse-phase measurement.
const TIMEOUT_US: u16 = 1000;

/// The closed set of ways a single-wire exchange can fail.
#[derive(Clone, Copy, Debug, PartialEq, Eq, Structural)]
pub enum Error {
    /// A drive or sample operation failed at the transport level.
    PinError,
    /// The decoded frame's checksum byte does not match its data bytes.
    CrcError,
    /// A pulse-phase measurement exceeded its microsecond budget.
    Timeout,
}

/// A single-wire sensor on one timed bidirectional pin, with a busy-wait
/// delay primitive.  Owns both exclusively.
pub struct Dht11<PIN, DELAY> {
    pin: PIN,
    delay: DELAY,
}

/// One snapshot of the sensor's output, in fixed-point tenths: a value of
/// `251` stands for 25.1 units.  The consumer divides by ten (in whatever
/// numeric type it favours) to obtain degrees Celsius and percent relative
/// humidity.
#[derive(Clone, Copy, Debug, PartialEq, Eq, Structural)]
pub struct Measurements {
    /// Temperature in tenths of a degree Celsius.
    pub temperature_tenths: i16,
    /// Relative humidity in tenths of a percent.
    pub humidity_tenths: u16,
}

/// The low byte of the wraparound sum of the four data bytes.
pub open spec fn spec_checksum(b0: u8, b1: u8, b2: u8, b3: u8) -> u8 {
    ((b0 + b1 + b2 + b3) % 256) as u8
}

/// Temperature in tenths of a degree: ten times the low 7 bits of the third
/// byte plus the fourth byte, negated when bit 7 of the third byte is set.
pub open spec fn spec_temperature_tenths(b2: u8, b3: u8) -> int {
    if b2 & 0x80 == 0 {
        (b2 & 0x7f) * 10 + b3
    } else {
        -((b2 & 0x7f) * 10 + b3)
    }
}

/// Relative humidity in tenths of a percent: ten times the first byte plus
/// the second byte.
pub open spec fn spec_humidity_tenths(b0: u8, b1: u8) -> int {
    b0 * 10 + b1
}

/// A 5-byte frame is internally consistent when its checksum byte matches
/// its four data bytes.
pub open spec fn spec_frame_valid(b: Seq<u8>) -> bool {
    b.len() == 5 && spec_checksum(b[0], b[1], b[2], b[3]) == b[4]
}

/// The measurement snapshot encoded by a frame's four data bytes.
pub open spec fn spec_measurements(b: Seq<u8>) -> Measurements {
    Measurements {
        temperature_tenths: spec_temperature_tenths(b[2], b[3]) as i16,
        humidity_tenths: spec_humidity_tenths(b[0], b[1]) as u16,
    }
}

/// Compute the frame checksum: the low byte of the wraparound sum of the
/// four data bytes.
pub fn checksum(b0: u8, b1: u8, b2: u8, b3: u8) -> (r: u8)
    ensures
        r == spec_checksum(b0, b1, b2, b3),
{
    let sum: u32 = b0 as u32 + b1 as u32 + b2 as u32 + b3 as u32;
    (sum % 256) as u8
}

/// Decode the temperature field from the third and fourth frame bytes.
pub fn decode_temperature_tenths(b2: u8, b3: u8) -> (r: i16)
    ensures
        r as int == spec_temperature_tenths(b2, b3),
{
    proof {
        assert(b2 & 0x7f <= 0x7f) by (bit_vector);
    }
    let magnitude: i16 = ((b2 & 0x7f) as i16) * 10 + (b3 as i16);
    if b2 & 0x80 == 0 {
        magnitude
    } else {
        -magnitude
    }
}

/// Decode the humidity field from the first and second frame bytes.
pub fn decode_humidity_tenths(b0: u8, b1: u8) -> (r: u16)
    ensures
        r as int == spec_humidity_tenths(b0, b1),
{
    (b0 as u16) * 10 + (b1 as u16)
}

/// Validate a decoded 5-byte frame and extract its measurement snapshot.
///
/// Returns the snapshot exactly when the checksum byte matches the four
/// data bytes; a mismatch yields `CrcError` and no snapshot.
pub fn parse_frame(b0: u8, b1: u8, b2: u8, b3: u8, b4: u8) -> (r: Result<Measurements, Error>)
    ensures
        r is Ok <==> spec_frame_valid(seq![b0, b1, b2, b3, b4]),
        r matches Ok(m) ==> m == spec_measurements(seq![b0, b1, b2, b3, b4]),
        r is Err ==> r == Err::<Measurements, Error>(Error::CrcError),
{
    let crc = checksum(b0, b1, b2, b3);
    if crc != b4 {
        return Err(Error::CrcError);
    }
    let temperature_tenths = decode_temperature_tenths(b2, b3);
    let humidity_tenths = decode_humidity_tenths(b0, b1);
    Ok(Measurements { temperature_tenths, humidity_tenths })
}

impl<PIN: TimedPin, DELAY: Delay> Dht11<PIN, DELAY> {
    /// Take exclusive ownership of the pin and the delay primitive.
    pub fn new(pin: PIN, delay: DELAY) -> Self {
        Self { pin, delay }
    }

    /// Run one request/response exchange.
    ///
    /// A successful exchange returns exactly the decoding of an internally
    /// consistent 40-bit frame; a frame whose checksum byte mismatches is
    /// discarded with `CrcError`, never returned with partial validity.
    pub fn read_temperature_humidity(&mut self) -> (r: Result<Measurements, Error>)
        ensures
            r matches Ok(m) ==> exists|b: Seq<u8>|
                #[trigger] spec_frame_valid(b) && m == spec_measurements(b),
    {
        match self.send_measure_request() {
            Ok(()) => (),
            Err(e) => {
                return Err(e);
            },
        }

        let b0 = match self.read_byte() {
            Ok(b) => b,
            Err(e) => {
                return Err(e);
            },
        };
        let b1 = match self.read_byte() {
            Ok(b) => b,
            Err(e) => {
                return Err(e);
            },
        };
        let b2 = match self.read_byte() {
            Ok(b) => b,
            Err(e) => {
                return Err(e);
            },
        };
        let b3 = match self.read_byte() {
            Ok(b) => b,
            Err(e) => {
                return Err(e);
            },
        };
        let b4 = match self.read_byte() {
            Ok(b) => b,
            Err(e) => {
                return Err(e);
            },
        };

        parse_frame(b0, b1, b2, b3, b4)
    }

    /// Drive the request pulse (high, low and high again, with the
    /// documented holds), release the line, and discard the sensor's
    /// acknowledgement bit.
    ///
    /// The request phase validates no checksum, so it can only fail at the
    /// transport or on the budget, never with `CrcError`.
    fn send_measure_request(&mut self) -> (r: Result<(), Error>)
        ensures
            r matches Err(e) ==> (e == Error::PinError || e == Error::Timeout),
    {
        match self.pin.drive_high() {
            Ok(()) => (),
            Err(_) => {
                return Err(Error::PinError);
            },
        }
        self.delay.wait_ms(20);
        match self.pin.drive_low() {
            Ok(()) => (),
            Err(_) => {
                return Err(Error::PinError);
            },
        }
        self.delay.wait_ms(20);
        match self.pin.drive_high() {
            Ok(()) => (),
            Err(_) => {
                return Err(Error::PinError);
            },
        }
        self.delay.wait_us(40);

        match self.read_bit() {
            Ok(_) => (),
            Err(e) => {
                return Err(e);
            },
        }
        Ok(())
    }

    /// Read 8 bits into one byte, most-significant bit first: the byte is
    /// accumulated by shifting left and OR-ing in each newly read bit.
    /// Bit reading can only fail at the transport or on the budget.
    fn read_byte(&mut self) -> (r: Result<u8, Error>)
        ensures
            r matches Err(e) ==> (e == Error::PinError || e == Error::Timeout),
    {
        let mut byte: u8 = 0;
        let mut i: usize = 0;
        while i < 8
            invariant
                i <= 8,
            decreases 8 - i,
        {
            byte = byte << 1;
            match self.read_bit() {
                Ok(true) => {
                    byte = byte | 1;
                },
                Ok(false) => (),
                Err(e) => {
                    return Err(e);
                },
            }
            i = i + 1;
        }
        Ok(byte)
    }

    /// Decode one bit: measure how long the line stays low, then how long it
    /// stays high, each under the same budget; the bit is 1 exactly when the
    /// high phase outlasted the low phase.  A bit read can only fail at the
    /// transport or on the budget.
    fn read_bit(&mut self) -> (r: Result<bool, Error>)
        ensures
            r matches Err(e) ==> (e == Error::PinError || e == Error::Timeout),
    {
        let low = match self.wait_for_raising(TIMEOUT_US) {
            Ok(e) => e,
            Err(e) => {
                return Err(e);
            },
        };
        let high = match self.wait_for_falling(TIMEOUT_US) {
            Ok(e) => e,
            Err(e) => {
                return Err(e);
            },
        };
        Ok(high > low)
    }

    /// Busy-wait until the line leaves the low level, sampling once per
    /// microsecond, and return the number of microseconds waited.
    ///
    /// A wait of up to `us_timeout` microseconds (inclusive) can still
    /// succeed; the measurement fails with `Timeout` only once the elapsed
    /// count exceeds the budget, so the boundary is inclusive below and
    /// exclusive above.
    pub fn wait_for_raising(&mut self, us_timeout: u16) -> (r: Result<u16, Error>)
        requires
            us_timeout < 0xFFFF,
        ensures
            r matches Ok(elapsed) ==> elapsed as int <= us_timeout as int + 1,
            r matches Err(e) ==> (e == Error::PinError || e == Error::Timeout),
    {
        let mut elapsed: u16 = 0;
        loop
            invariant
                us_timeout < 0xFFFF,
                elapsed as int <= us_timeout as int + 1,
            decreases us_timeout as int + 2 - elapsed as int,
        {
            let low = match self.pin.sample_low() {
                Ok(level) => level,
                Err(_) => {
                    return Err(Error::PinError);
                },
            };
            if !low {
                return Ok(elapsed);
            }
            if elapsed > us_timeout {
                return Err(Error::Timeout);
            }
            self.delay.wait_us(1);
            elapsed = elapsed + 1;
        }
    }

    /// Busy-wait until the line leaves the high level, sampling once per
    /// microsecond, and return the number of microseconds waited.
    ///
    /// The budget boundary is the same as for the low phase: inclusive below
    /// and exclusive above.
    pub fn wait_for_falling(&mut self, us_timeout: u16) -> (r: Result<u16, Error>)
        requires
            us_timeout < 0xFFFF,
        ensures
            r matches Ok(elapsed) ==> elapsed as int <= us_timeout as int + 1,
            r matches Err(e) ==> (e == Error::PinError || e == Error::Timeout),
    {
        let mut elapsed: u16 = 0;
        loop
            invariant
                us_timeout < 0xFFFF,
                elapsed as int <= us_timeout as int + 1,
            decreases us_timeout as int + 2 - elapsed as int,
        {
            let high = match self.pin.sample_high() {
                Ok(level) => level,
                Err(_) => {
                    return Err(Error::PinError);
                },
            };
            if !high {
                return Ok(elapsed);
            }
            if elapsed > us_timeout {
                return Err(Error::Timeout);
            }
            self.delay.wait_us(1);
            elapsed = elapsed + 1;
        }
    }
}

impl TemperatureReading for Measurements {
    open spec fn spec_temperature_tenths(&self) -> int {
        self.temperature_tenths as int
    }

    fn get_temperature_tenths(&self) -> (r: i32) {
        self.temperature_tenths as i32
    }
}

impl HumidityReading for Measurements {
    open spec fn spec_humidity_tenths(&self) -> int {
        self.humidity_tenths as int
    }

    fn get_humidity_tenths(&self) -> (r: i32) {
        self.humidity_tenths as i32
    }
}

} // verus!
