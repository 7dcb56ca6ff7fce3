//! Driver for an I2C hygro/thermometer at 7-bit address `0x5C`.
//!
//! One read cycle writes the 3-byte request `[0x03, 0x00, 0x04]` and reads an
//! 8-byte response; relative humidity is the big-endian 16-bit word at offset
//! 2 and temperature the one at offset 4, both in tenths of a unit.

use vstd::prelude::*;

use crate::bus::{BusError, RegisterBus};
use crate::codec::{decode_i16_be, spec_i16_from_word, spec_word};
use crate::sensors::{HumidityReading, TemperatureReading};

verus! {

/// 7-bit bus address of the sensor.
const ADDRESS: u8 = 0x5C;

/// A hygro/thermometer on an addressed register bus.  Owns its transport
/// exclusively.
pub struct AM2320<I2C> {
    i2c: I2C,
}

/// One snapshot of the sensor's output, in fixed-point tenths: a value of
/// `257` stands for 25.7 units.  The consumer divides by ten (in whatever
/// numeric type it favours) to obtain degrees Celsius and percent relative
/// humidity.
#[derive(Clone, Copy, Debug, PartialEq, Eq, Structural)]
pub struct Readings {
    /// Temperature in tenths of a degree Celsius.
    pub temperature_tenths: i16,
    /// Relative humidity in tenths of a percent.
    pub humidity_tenths: i16,
}

/// The readings encoded by an 8-byte response: humidity is the big-endian
/// signed word at offset 2, temperature the one at offset 4.
pub open spec fn spec_readings(response: Seq<u8>) -> Readings {
    Readings {
        temperature_tenths: spec_i16_from_word(spec_word(response[4], response[5])) as i16,
        humidity_tenths: spec_i16_from_word(spec_word(response[2], response[3])) as i16,
    }
}

/// Decode an 8-byte response into a readings snapshot.
pub fn decode_response(response: &Vec<u8>) -> (r: Readings)
    requires
        response@.len() == 8,
    ensures
        r == spec_readings(response@),
{
    let humidity_tenths = decode_i16_be(response[2], response[3]);
    let temperature_tenths = decode_i16_be(response[4], response[5]);
    Readings { temperature_tenths, humidity_tenths }
}

impl<I2C: RegisterBus> AM2320<I2C> {
    /// Take exclusive ownership of the transport.
    pub fn new(i2c: I2C) -> Self {
        AM2320 { i2c }
    }

    /// Run one read cycle.  Any transport failure aborts the cycle and is
    /// surfaced unchanged; a successful cycle returns exactly the decoding
    /// of the 8-byte response that the sensor produced.
    pub fn read_sensor(&mut self) -> (r: Result<Readings, BusError>)
        ensures
            r matches Ok(m) ==> exists|response: Seq<u8>|
                response.len() == 8 && m == #[trigger] spec_readings(response),
    {
        let request: [u8; 3] = [0x03, 0x00, 0x04];
        let response = match self.i2c.write_then_read(ADDRESS, request.as_slice(), 8) {
            Ok(response) => response,
            Err(e) => {
                return Err(e);
            },
        };
        let readings = decode_response(&response);
        Ok(readings)
    }
}

impl TemperatureReading for Readings {
    open spec fn spec_temperature_tenths(&self) -> int {
        self.temperature_tenths as int
    }

    fn get_temperature_tenths(&self) -> (r: i32) {
        self.temperature_tenths as i32
    }
}

impl HumidityReading for Readings {
    open spec fn spec_humidity_tenths(&self) -> int {
        self.humidity_tenths as int
    }

    fn get_humidity_tenths(&self) -> (r: i32) {
        self.humidity_tenths as i32
    }
}

} // verus!
