//! Measurement capability contracts.
//!
//! A consumer that only needs a temperature (a display line, a logger) is
//! written against "anything offering a temperature reading", so it works
//! unmodified across sensor families with different native measurement
//! shapes.  Readings are exposed in fixed-point tenths of a unit, widened to
//! `i32` so that every sensor's native range fits.

use vstd::prelude::*;

verus! {

/// Offers a temperature reading, in tenths of a degree Celsius.
pub trait TemperatureReading {
    /// The temperature this snapshot holds, in tenths of a degree.
    spec fn spec_temperature_tenths(&self) -> int;

    /// Return the snapshot's temperature in tenths of a degree Celsius.
    fn get_temperature_tenths(&self) -> (r: i32)
        ensures
            r as int == self.spec_temperature_tenths(),
    ;
}

/// Offers a relative-humidity reading, in tenths of a percent.
pub trait HumidityReading {
    /// The relative humidity this snapshot holds, in tenths of a percent.
    spec fn spec_humidity_tenths(&self) -> int;

    /// Return the snapshot's relative humidity in tenths of a percent.
    fn get_humidity_tenths(&self) -> (r: i32)
        ensures
            r as int == self.spec_humidity_tenths(),
    ;
}

} // verus!
