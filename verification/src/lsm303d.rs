//! Driver for a combined accelerometer/magnetometer/thermometer on an
//! addressed register bus, 7-bit address `0x1D`.
//!
//! Configuration goes through read-modify-write of bitfields in the control
//! registers `0x1F`..`0x26`; measurements are little-endian signed 16-bit
//! words read with the auto-increment bit (`0x80`) set on the register
//! address.  Selecting a full-scale range records the option's scale divisor
//! in the handle, and every subsequent measurement snapshot carries the
//! divisor that was active when it was read.

use vstd::prelude::*;

use crate::bus::{BusError, RegisterBus};
use crate::codec::{apply_field, cond_toggle_mask, decode_i16_le};

verus! {

/// 7-bit bus address of the device.
pub const ADDRESS: u8 = 0x1D;

/// The constant that the identity register reads back on the genuine device.
pub const IDENTITY: u8 = 0b0100_1001;

/// Set on a register address to request auto-increment (burst) reads.
pub const AUTO_INCREMENT: u8 = 0x80;

/// Axis-enable bits of the first control register.
pub const ACC_AXIS_X_MASK: u8 = 0x01;

/// Axis-enable bits of the first control register.
pub const ACC_AXIS_Y_MASK: u8 = 0x02;

/// Axis-enable bits of the first control register.
pub const ACC_AXIS_Z_MASK: u8 = 0x04;

/// Acceleration data-rate field of the first control register.
pub const ACC_DATA_RATE_MASK: u8 = 0xF0;

/// Acceleration full-scale field of the second control register.
pub const ACC_SCALE_MASK: u8 = 0b0011_1000;

/// Internal-temperature enable bit of the fifth control register.
pub const TEMPERATURE_ENABLE_MASK: u8 = 0x80;

/// Magnetometer data-rate field of the fifth control register.
pub const MAG_DATA_RATE_MASK: u8 = 0b0001_1100;

/// Magnetic sensor mode field of the seventh control register.
pub const MAG_MODE_MASK: u8 = 0b0000_0011;

/// The closed set of register addresses of this device family.  Driver code
/// never forms a register address from an arbitrary number.
#[derive(Clone, Copy, Debug, PartialEq, Eq, Structural)]
pub enum Register {
    TempOutL,
    TempOutH,
    StatusM,
    OutXLM,
    OutXHM,
    OutYLM,
    OutYHM,
    OutZLM,
    OutZHM,
    WhoAmI,
    Ctrl0,
    Ctrl1,
    Ctrl2,
    Ctrl3,
    Ctrl4,
    Ctrl5,
    Ctrl6,
    Ctrl7,
    OutXLA,
    OutXHA,
    OutYLA,
    OutYHA,
    OutZLA,
    OutZHA,
}

impl Register {
    /// The bus address of this register.
    pub open spec fn spec_addr(self) -> u8 {
        match self {
            Register::TempOutL => 0x05,
            Register::TempOutH => 0x06,
            Register::StatusM => 0x07,
            Register::OutXLM => 0x08,
            Register::OutXHM => 0x09,
            Register::OutYLM => 0x0A,
            Register::OutYHM => 0x0B,
            Register::OutZLM => 0x0C,
            Register::OutZHM => 0x0D,
            Register::WhoAmI => 0x0F,
            Register::Ctrl0 => 0x1F,
            Register::Ctrl1 => 0x20,
            Register::Ctrl2 => 0x21,
            Register::Ctrl3 => 0x22,
            Register::Ctrl4 => 0x23,
            Register::Ctrl5 => 0x24,
            Register::Ctrl6 => 0x25,
            Register::Ctrl7 => 0x26,
            Register::OutXLA => 0x28,
            Register::OutXHA => 0x29,
            Register::OutYLA => 0x2A,
            Register::OutYHA => 0x2B,
            Register::OutZLA => 0x2C,
            Register::OutZHA => 0x2D,
        }
    }

    /// Return the bus address of this register.
    pub fn addr(self) -> (r: u8)
        ensures
            r == self.spec_addr(),
    {
        match self {
            Register::TempOutL => 0x05,
            Register::TempOutH => 0x06,
            Register::StatusM => 0x07,
            Register::OutXLM => 0x08,
            Register::OutXHM => 0x09,
            Register::OutYLM => 0x0A,
            Register::OutYHM => 0x0B,
            Register::OutZLM => 0x0C,
            Register::OutZHM => 0x0D,
            Register::WhoAmI => 0x0F,
            Register::Ctrl0 => 0x1F,
            Register::Ctrl1 => 0x20,
            Register::Ctrl2 => 0x21,
            Register::Ctrl3 => 0x22,
            Register::Ctrl4 => 0x23,
            Register::Ctrl5 => 0x24,
            Register::Ctrl6 => 0x25,
            Register::Ctrl7 => 0x26,
            Register::OutXLA => 0x28,
            Register::OutXHA => 0x29,
            Register::OutYLA => 0x2A,
            Register::OutYHA => 0x2B,
            Register::OutZLA => 0x2C,
            Register::OutZHA => 0x2D,
        }
    }
}

/// Named options for the accelerometer's output data rate.  Each option maps
/// to a bit pattern of the data-rate field; the mapping is kept as data
/// beside the enumeration.
#[derive(Clone, Copy, Debug, PartialEq, Eq, Structural)]
pub enum AccelerationDataRate {
    PowerOff,
    Hz3_125,
    Hz6_25,
    Hz12_5,
    Hz25,
    Hz50,
    Hz100,
    Hz200,
    Hz400,
    Hz800,
    Hz1600,
}

impl AccelerationDataRate {
    /// The bit pattern of the data-rate field for this option.
    pub open spec fn spec_bits(self) -> u8 {
        match self {
            AccelerationDataRate::PowerOff => 0b0000_0000,
            AccelerationDataRate::Hz3_125 => 0b0001_0000,
            AccelerationDataRate::Hz6_25 => 0b0010_0000,
            AccelerationDataRate::Hz12_5 => 0b0011_0000,
            AccelerationDataRate::Hz25 => 0b0100_0000,
            AccelerationDataRate::Hz50 => 0b0101_0000,
            AccelerationDataRate::Hz100 => 0b0110_0000,
            AccelerationDataRate::Hz200 => 0b0111_0000,
            AccelerationDataRate::Hz400 => 0b1000_0000,
            AccelerationDataRate::Hz800 => 0b1001_0000,
            AccelerationDataRate::Hz1600 => 0b1010_0000,
        }
    }

    /// Return the bit pattern of the data-rate field for this option.
    pub fn bits(self) -> (r: u8)
        ensures
            r == self.spec_bits(),
    {
        match self {
            AccelerationDataRate::PowerOff => 0b0000_0000,
            AccelerationDataRate::Hz3_125 => 0b0001_0000,
            AccelerationDataRate::Hz6_25 => 0b0010_0000,
            AccelerationDataRate::Hz12_5 => 0b0011_0000,
            AccelerationDataRate::Hz25 => 0b0100_0000,
            AccelerationDataRate::Hz50 => 0b0101_0000,
            AccelerationDataRate::Hz100 => 0b0110_0000,
            AccelerationDataRate::Hz200 => 0b0111_0000,
            AccelerationDataRate::Hz400 => 0b1000_0000,
            AccelerationDataRate::Hz800 => 0b1001_0000,
            AccelerationDataRate::Hz1600 => 0b1010_0000,
        }
    }
}

/// Named options for the accelerometer's full-scale range.  Each option maps
/// to a bit pattern of the full-scale field and to the scale divisor used to
/// convert raw codes to physical units.
#[derive(Clone, Copy, Debug, PartialEq, Eq, Structural)]
pub enum AccelerationFullScale {
    Acc2G,
    Acc4G,
    Acc6G,
    Acc8G,
    Acc16G,
}

impl AccelerationFullScale {
    /// The bit pattern of the full-scale field for this option.
    pub open spec fn spec_bits(self) -> u8 {
        match self {
            AccelerationFullScale::Acc2G => 0b0000_0000,
            AccelerationFullScale::Acc4G => 0b0000_1000,
            AccelerationFullScale::Acc6G => 0b0001_0000,
            AccelerationFullScale::Acc8G => 0b0001_1000,
            AccelerationFullScale::Acc16G => 0b0010_0000,
        }
    }

    /// Return the bit pattern of the full-scale field for this option.
    pub fn bits(self) -> (r: u8)
        ensures
            r == self.spec_bits(),
    {
        match self {
            AccelerationFullScale::Acc2G => 0b0000_0000,
            AccelerationFullScale::Acc4G => 0b0000_1000,
            AccelerationFullScale::Acc6G => 0b0001_0000,
            AccelerationFullScale::Acc8G => 0b0001_1000,
            AccelerationFullScale::Acc16G => 0b0010_0000,
        }
    }

    /// The scale divisor recorded for this option: the number of G at full
    /// scale.
    pub open spec fn spec_divisor(self) -> u8 {
        match self {
            AccelerationFullScale::Acc2G => 2,
            AccelerationFullScale::Acc4G => 4,
            AccelerationFullScale::Acc6G => 6,
            AccelerationFullScale::Acc8G => 8,
            AccelerationFullScale::Acc16G => 16,
        }
    }

    /// Return the scale divisor recorded for this option.
    pub fn divisor(self) -> (r: u8)
        ensures
            r == self.spec_divisor(),
    {
        match self {
            AccelerationFullScale::Acc2G => 2,
            AccelerationFullScale::Acc4G => 4,
            AccelerationFullScale::Acc6G => 6,
            AccelerationFullScale::Acc8G => 8,
            AccelerationFullScale::Acc16G => 16,
        }
    }
}

/// Named options for the magnetometer's output data rate.
#[derive(Clone, Copy, Debug, PartialEq, Eq, Structural)]
pub enum MagnetometerDataRate {
    Hz3_125,
    Hz6_25,
    Hz12_5,
    Hz25,
    Hz50,
    Hz100,
}

impl MagnetometerDataRate {
    /// The bit pattern of the magnetometer data-rate field for this option.
    pub open spec fn spec_bits(self) -> u8 {
        match self {
            MagnetometerDataRate::Hz3_125 => 0b0000_0000,
            MagnetometerDataRate::Hz6_25 => 0b0000_0100,
            MagnetometerDataRate::Hz12_5 => 0b0000_1000,
            MagnetometerDataRate::Hz25 => 0b0000_1100,
            MagnetometerDataRate::Hz50 => 0b0001_0000,
            MagnetometerDataRate::Hz100 => 0b0001_0100,
        }
    }

    /// Return the bit pattern of the magnetometer data-rate field.
    pub fn bits(self) -> (r: u8)
        ensures
            r == self.spec_bits(),
    {
        match self {
            MagnetometerDataRate::Hz3_125 => 0b0000_0000,
            MagnetometerDataRate::Hz6_25 => 0b0000_0100,
            MagnetometerDataRate::Hz12_5 => 0b0000_1000,
            MagnetometerDataRate::Hz25 => 0b0000_1100,
            MagnetometerDataRate::Hz50 => 0b0001_0000,
            MagnetometerDataRate::Hz100 => 0b0001_0100,
        }
    }
}

/// Named options for the magnetometer's resolution.
#[derive(Clone, Copy, Debug, PartialEq, Eq, Structural)]
pub enum MagnetometerResolution {
    Low,
    High,
}

impl MagnetometerResolution {
    /// The bit pattern of the resolution field for this option.
    pub open spec fn spec_bits(self) -> u8 {
        match self {
            MagnetometerResolution::Low => 0b0000_0000,
            MagnetometerResolution::High => 0b0110_0000,
        }
    }

    /// Return the bit pattern of the resolution field for this option.
    pub fn bits(self) -> (r: u8)
        ensures
            r == self.spec_bits(),
    {
        match self {
            MagnetometerResolution::Low => 0b0000_0000,
            MagnetometerResolution::High => 0b0110_0000,
        }
    }
}

/// Named options for the magnetometer's full-scale range, each with its bit
/// pattern and its scale divisor.
#[derive(Clone, Copy, Debug, PartialEq, Eq, Structural)]
pub enum MagnetometerFullScale {
    Mag2Gauss,
    Mag4Gauss,
    Mag8Gauss,
    Mag12Gauss,
}

impl MagnetometerFullScale {
    /// The bit pattern of the magnetometer full-scale field for this option.
    pub open spec fn spec_bits(self) -> u8 {
        match self {
            MagnetometerFullScale::Mag2Gauss => 0b0000_0000,
            MagnetometerFullScale::Mag4Gauss => 0b0010_0000,
            MagnetometerFullScale::Mag8Gauss => 0b0100_0000,
            MagnetometerFullScale::Mag12Gauss => 0b0110_0000,
        }
    }

    /// Return the bit pattern of the magnetometer full-scale field.
    pub fn bits(self) -> (r: u8)
        ensures
            r == self.spec_bits(),
    {
        match self {
            MagnetometerFullScale::Mag2Gauss => 0b0000_0000,
            MagnetometerFullScale::Mag4Gauss => 0b0010_0000,
            MagnetometerFullScale::Mag8Gauss => 0b0100_0000,
            MagnetometerFullScale::Mag12Gauss => 0b0110_0000,
        }
    }

    /// The scale divisor recorded for this option: the number of gauss at
    /// full scale.
    pub open spec fn spec_divisor(self) -> u8 {
        match self {
            MagnetometerFullScale::Mag2Gauss => 2,
            MagnetometerFullScale::Mag4Gauss => 4,
            MagnetometerFullScale::Mag8Gauss => 8,
            MagnetometerFullScale::Mag12Gauss => 12,
        }
    }

    /// Return the scale divisor recorded for this option.
    pub fn divisor(self) -> (r: u8)
        ensures
            r == self.spec_divisor(),
    {
        match self {
            MagnetometerFullScale::Mag2Gauss => 2,
            MagnetometerFullScale::Mag4Gauss => 4,
            MagnetometerFullScale::Mag8Gauss => 8,
            MagnetometerFullScale::Mag12Gauss => 12,
        }
    }
}

/// Named options for the magnetic sensor's conversion mode.
#[derive(Clone, Copy, Debug, PartialEq, Eq, Structural)]
pub enum MagneticSensorMode {
    ContinuousConversion,
    SingleConversion,
    PowerDown,
}

impl MagneticSensorMode {
    /// The bit pattern of the sensor-mode field for this option.
    pub open spec fn spec_bits(self) -> u8 {
        match self {
            MagneticSensorMode::ContinuousConversion => 0b0000_0000,
            MagneticSensorMode::SingleConversion => 0b0000_0001,
            MagneticSensorMode::PowerDown => 0b0000_0010,
        }
    }

    /// Return the bit pattern of the sensor-mode field for this option.
    pub fn bits(self) -> (r: u8)
        ensures
            r == self.spec_bits(),
    {
        match self {
            MagneticSensorMode::ContinuousConversion => 0b0000_0000,
            MagneticSensorMode::SingleConversion => 0b0000_0001,
            MagneticSensorMode::PowerDown => 0b0000_0010,
        }
    }
}

/// Everything the caller may set on the accelerometer in one call.
#[derive(Clone, Copy, Debug, PartialEq, Eq, Structural)]
pub struct AccelerometerConfiguration {
    pub axis_x: bool,
    pub axis_y: bool,
    pub axis_z: bool,
    pub data_rate: AccelerationDataRate,
    pub scale: AccelerationFullScale,
}

/// Everything the caller may set on the magnetometer in one call.
#[derive(Clone, Copy, Debug, PartialEq, Eq, Structural)]
pub struct MagnetometerConfiguration {
    pub data_rate: MagnetometerDataRate,
    pub scale: MagnetometerFullScale,
    pub mode: MagneticSensorMode,
}

/// Whether the internal thermometer is active.
#[derive(Clone, Copy, Debug, PartialEq, Eq, Structural)]
pub struct InternalTemperatureConfiguration {
    pub active: bool,
}

/// Raw accelerometer codes of one read cycle, one signed 16-bit code per
/// axis.  The physical value in G is `code * divider / 32768`, where 32768
/// is the full-scale code range of the signed 16-bit output; the consumer
/// performs that conversion in its favoured numeric type.
#[derive(Default, Clone, Copy, Debug, PartialEq, Eq, Structural)]
pub struct AccelerometerMeasurements {
    pub x: i16,
    pub y: i16,
    pub z: i16,
}

/// Raw magnetometer codes of one read cycle, one signed 16-bit code per
/// axis.  The physical value in gauss is `code * divider / 32768`, as for
/// the accelerometer.
#[derive(Default, Clone, Copy, Debug, PartialEq, Eq, Structural)]
pub struct MagnetometerMeasurements {
    pub x: i16,
    pub y: i16,
    pub z: i16,
}

/// An immutable snapshot of one read cycle.  It carries the scale divisors
/// that were active when it was read, so reconfiguring the device later
/// never changes how this snapshot converts; its scale-dependent fields are
/// meaningful exactly relative to those divisors.
#[derive(Default, Clone, Copy, Debug, PartialEq, Eq, Structural)]
pub struct Measurements {
    /// Raw signed temperature code.
    pub temperature: i16,
    pub magnetometer: MagnetometerMeasurements,
    pub accelerometer: AccelerometerMeasurements,
    /// Accelerometer scale divisor active at the read.
    pub acc_divider: u8,
    /// Magnetometer scale divisor active at the read.
    pub mag_divider: u8,
}

/// Law: the connectivity check accepts exactly the documented identity
/// constant — it returns true for the genuine identity byte and false for
/// every other byte value.
pub fn identity_matches(byte: u8) -> (r: bool)
    ensures
        r == (byte == IDENTITY),
{
    byte == IDENTITY
}

/// The value written back to the first control register: axis-enable bits
/// set or cleared per configuration, the data-rate field replaced, and every
/// other bit (the block-data-update bit among them) preserved.
pub fn ctrl1_value(current: u8, configuration: AccelerometerConfiguration) -> (r: u8)
    ensures
        r & ACC_AXIS_X_MASK == (if configuration.axis_x {
            ACC_AXIS_X_MASK
        } else {
            0
        }),
        r & ACC_AXIS_Y_MASK == (if configuration.axis_y {
            ACC_AXIS_Y_MASK
        } else {
            0
        }),
        r & ACC_AXIS_Z_MASK == (if configuration.axis_z {
            ACC_AXIS_Z_MASK
        } else {
            0
        }),
        r & ACC_DATA_RATE_MASK == configuration.data_rate.spec_bits() & ACC_DATA_RATE_MASK,
        r & 0x08 == current & 0x08,
{
    let a = cond_toggle_mask(configuration.axis_x, current, ACC_AXIS_X_MASK);
    let b = cond_toggle_mask(configuration.axis_y, a, ACC_AXIS_Y_MASK);
    let c = cond_toggle_mask(configuration.axis_z, b, ACC_AXIS_Z_MASK);
    let r = apply_field(c, ACC_DATA_RATE_MASK, configuration.data_rate.bits());
    proof {
        assert(0x01u8 & 0x02u8 == 0 && 0x01u8 & 0x04u8 == 0 && 0x01u8 & 0xF0u8 == 0
            && 0x02u8 & 0x04u8 == 0 && 0x02u8 & 0xF0u8 == 0 && 0x04u8 & 0xF0u8 == 0 && 0x08u8
            & 0x01u8 == 0 && 0x08u8 & 0x02u8 == 0 && 0x08u8 & 0x04u8 == 0 && 0x08u8 & 0xF0u8
            == 0) by (bit_vector);
        crate::codec::lemma_untouched_bits(b, a, ACC_AXIS_Y_MASK, ACC_AXIS_X_MASK);
        crate::codec::lemma_untouched_bits(c, b, ACC_AXIS_Z_MASK, ACC_AXIS_X_MASK);
        crate::codec::lemma_untouched_bits(r, c, ACC_DATA_RATE_MASK, ACC_AXIS_X_MASK);
        crate::codec::lemma_untouched_bits(c, b, ACC_AXIS_Z_MASK, ACC_AXIS_Y_MASK);
        crate::codec::lemma_untouched_bits(r, c, ACC_DATA_RATE_MASK, ACC_AXIS_Y_MASK);
        crate::codec::lemma_untouched_bits(r, c, ACC_DATA_RATE_MASK, ACC_AXIS_Z_MASK);
        crate::codec::lemma_untouched_bits(a, current, ACC_AXIS_X_MASK, 0x08);
        crate::codec::lemma_untouched_bits(b, a, ACC_AXIS_Y_MASK, 0x08);
        crate::codec::lemma_untouched_bits(c, b, ACC_AXIS_Z_MASK, 0x08);
        crate::codec::lemma_untouched_bits(r, c, ACC_DATA_RATE_MASK, 0x08);
    }
    r
}

/// The value written back to the second control register: the full-scale
/// field replaced, every bit outside it preserved.
pub fn ctrl2_value(current: u8, configuration: AccelerometerConfiguration) -> (r: u8)
    ensures
        r & ACC_SCALE_MASK == configuration.scale.spec_bits() & ACC_SCALE_MASK,
        r & !ACC_SCALE_MASK == current & !ACC_SCALE_MASK,
{
    apply_field(current, ACC_SCALE_MASK, configuration.scale.bits())
}

/// The value written back to the fifth control register by the thermometer
/// configuration: the enable bit set or cleared, every other bit preserved.
pub fn ctrl5_temperature_value(current: u8, configuration: InternalTemperatureConfiguration) -> (r:
    u8)
    ensures
        configuration.active ==> r & TEMPERATURE_ENABLE_MASK == TEMPERATURE_ENABLE_MASK,
        !configuration.active ==> r & TEMPERATURE_ENABLE_MASK == 0,
        r & !TEMPERATURE_ENABLE_MASK == current & !TEMPERATURE_ENABLE_MASK,
{
    cond_toggle_mask(configuration.active, current, TEMPERATURE_ENABLE_MASK)
}

/// The value written back to the fifth control register by the magnetometer
/// configuration: the magnetometer data-rate field replaced, every bit
/// outside it (the thermometer enable bit among them) preserved.
pub fn ctrl5_magnetometer_value(current: u8, configuration: MagnetometerConfiguration) -> (r: u8)
    ensures
        r & MAG_DATA_RATE_MASK == configuration.data_rate.spec_bits() & MAG_DATA_RATE_MASK,
        r & !MAG_DATA_RATE_MASK == current & !MAG_DATA_RATE_MASK,
{
    apply_field(current, MAG_DATA_RATE_MASK, configuration.data_rate.bits())
}

/// The value written back to the seventh control register: the sensor-mode
/// field replaced, every bit outside it preserved.
pub fn ctrl7_value(current: u8, configuration: MagnetometerConfiguration) -> (r: u8)
    ensures
        r & MAG_MODE_MASK == configuration.mode.spec_bits() & MAG_MODE_MASK,
        r & !MAG_MODE_MASK == current & !MAG_MODE_MASK,
{
    apply_field(current, MAG_MODE_MASK, configuration.mode.bits())
}

/// A combined accelerometer/magnetometer/thermometer handle.  Owns its
/// transport exclusively and remembers the scale divisors that the last
/// configuration calls selected.
pub struct LSM303D<I2C> {
    i2c: I2C,
    acc_divider: u8,
    mag_divider: u8,
    address: u8,
}

impl<I2C: RegisterBus> LSM303D<I2C> {
    /// The accelerometer scale divisor recorded by the last accelerometer
    /// configuration (1 before any).
    pub closed spec fn spec_acc_divider(&self) -> u8 {
        self.acc_divider
    }

    /// The magnetometer scale divisor recorded by the last magnetometer
    /// configuration (1 before any).
    pub closed spec fn spec_mag_divider(&self) -> u8 {
        self.mag_divider
    }

    /// The 7-bit bus address this handle talks to.
    pub closed spec fn spec_address(&self) -> u8 {
        self.address
    }

    /// Take exclusive ownership of the transport.  Both scale divisors start
    /// at 1 until a configuration call records a selected option's divisor.
    pub fn new(i2c: I2C) -> (r: Self)
        ensures
            r.spec_acc_divider() == 1,
            r.spec_mag_divider() == 1,
            r.spec_address() == ADDRESS,
    {
        Self { i2c, mag_divider: 1, acc_divider: 1, address: ADDRESS }
    }

    /// Return the accelerometer scale divisor currently recorded.
    pub fn acc_divider(&self) -> (r: u8)
        ensures
            r == self.spec_acc_divider(),
    {
        self.acc_divider
    }

    /// Return the magnetometer scale divisor currently recorded.
    pub fn mag_divider(&self) -> (r: u8)
        ensures
            r == self.spec_mag_divider(),
    {
        self.mag_divider
    }

    /// Read the identity register and compare it to the documented constant.
    /// A mismatch is an expected, recoverable situation (a different device
    /// answering on the bus), so it is reported as `false`, not as an error;
    /// only a transport failure is an error.
    pub fn check_connection(&mut self) -> (r: Result<bool, BusError>)
        ensures
            final(self).spec_acc_divider() == old(self).spec_acc_divider(),
            final(self).spec_mag_divider() == old(self).spec_mag_divider(),
            final(self).spec_address() == old(self).spec_address(),
    {
        let request: [u8; 1] = [Register::WhoAmI.addr()];
        let response = match self.i2c.write_then_read(self.address, request.as_slice(), 1) {
            Ok(response) => response,
            Err(e) => {
                return Err(e);
            },
        };
        Ok(identity_matches(response[0]))
    }

    /// Switch the internal thermometer on or off by read-modify-write of its
    /// enable bit, leaving every other configured bit as it was.
    pub fn configure_internal_temperature(
        &mut self,
        configuration: InternalTemperatureConfiguration,
    ) -> (r: Result<(), BusError>)
        ensures
            final(self).spec_acc_divider() == old(self).spec_acc_divider(),
            final(self).spec_mag_divider() == old(self).spec_mag_divider(),
            final(self).spec_address() == old(self).spec_address(),
    {
        let request: [u8; 1] = [Register::Ctrl5.addr()];
        let response = match self.i2c.write_then_read(self.address, request.as_slice(), 1) {
            Ok(response) => response,
            Err(e) => {
                return Err(e);
            },
        };
        let value = ctrl5_temperature_value(response[0], configuration);
        let command: [u8; 2] = [Register::Ctrl5.addr(), value];
        match self.i2c.write(self.address, command.as_slice()) {
            Ok(()) => (),
            Err(e) => {
                return Err(e);
            },
        }
        Ok(())
    }

    /// Apply an accelerometer configuration: read-modify-write the axis
    /// enables and data-rate field, then the full-scale field, and record
    /// the selected option's scale divisor for later conversions.  On a
    /// transport failure the previously recorded divisor is kept.
    pub fn configure_accelerometer(&mut self, configuration: AccelerometerConfiguration) -> (r:
        Result<(), BusError>)
        ensures
            r is Ok ==> final(self).spec_acc_divider() == configuration.scale.spec_divisor(),
            r is Err ==> final(self).spec_acc_divider() == old(self).spec_acc_divider(),
            final(self).spec_mag_divider() == old(self).spec_mag_divider(),
            final(self).spec_address() == old(self).spec_address(),
    {
        let request: [u8; 1] = [Register::Ctrl1.addr()];
        let response = match self.i2c.write_then_read(self.address, request.as_slice(), 1) {
            Ok(response) => response,
            Err(e) => {
                return Err(e);
            },
        };
        let value = ctrl1_value(response[0], configuration);
        let command: [u8; 2] = [Register::Ctrl1.addr(), value];
        match self.i2c.write(self.address, command.as_slice()) {
            Ok(()) => (),
            Err(e) => {
                return Err(e);
            },
        }

        let request: [u8; 1] = [Register::Ctrl2.addr()];
        let response = match self.i2c.write_then_read(self.address, request.as_slice(), 1) {
            Ok(response) => response,
            Err(e) => {
                return Err(e);
            },
        };
        let value = ctrl2_value(response[0], configuration);
        let command: [u8; 2] = [Register::Ctrl2.addr(), value];
        match self.i2c.write(self.address, command.as_slice()) {
            Ok(()) => (),
            Err(e) => {
                return Err(e);
            },
        }

        self.acc_divider = configuration.scale.divisor();
        Ok(())
    }

    /// Apply a magnetometer configuration: read-modify-write the data-rate
    /// field, write the full-scale field, read-modify-write the sensor-mode
    /// field, and record the selected option's scale divisor for later
    /// conversions.  On a transport failure the previously recorded divisor
    /// is kept.
    pub fn configure_magnetometer(&mut self, configuration: MagnetometerConfiguration) -> (r:
        Result<(), BusError>)
        ensures
            r is Ok ==> final(self).spec_mag_divider() == configuration.scale.spec_divisor(),
            r is Err ==> final(self).spec_mag_divider() == old(self).spec_mag_divider(),
            final(self).spec_acc_divider() == old(self).spec_acc_divider(),
            final(self).spec_address() == old(self).spec_address(),
    {
        let request: [u8; 1] = [Register::Ctrl5.addr()];
        let response = match self.i2c.write_then_read(self.address, request.as_slice(), 1) {
            Ok(response) => response,
            Err(e) => {
                return Err(e);
            },
        };
        let value = ctrl5_magnetometer_value(response[0], configuration);
        let command: [u8; 2] = [Register::Ctrl5.addr(), value];
        match self.i2c.write(self.address, command.as_slice()) {
            Ok(()) => (),
            Err(e) => {
                return Err(e);
            },
        }

        let command: [u8; 2] = [Register::Ctrl6.addr(), configuration.scale.bits()];
        match self.i2c.write(self.address, command.as_slice()) {
            Ok(()) => (),
            Err(e) => {
                return Err(e);
            },
        }

        let request: [u8; 1] = [Register::Ctrl7.addr()];
        let response = match self.i2c.write_then_read(self.address, request.as_slice(), 1) {
            Ok(response) => response,
            Err(e) => {
                return Err(e);
            },
        };
        let value = ctrl7_value(response[0], configuration);
        let command: [u8; 2] = [Register::Ctrl7.addr(), value];
        match self.i2c.write(self.address, command.as_slice()) {
            Ok(()) => (),
            Err(e) => {
                return Err(e);
            },
        }

        self.mag_divider = configuration.scale.divisor();
        Ok(())
    }

    /// Read one little-endian signed 16-bit field, using the auto-increment
    /// bit to fetch both bytes in one transaction.
    fn read_i16_register(&mut self, register: Register) -> (r: Result<i16, BusError>)
        ensures
            final(self).spec_acc_divider() == old(self).spec_acc_divider(),
            final(self).spec_mag_divider() == old(self).spec_mag_divider(),
            final(self).spec_address() == old(self).spec_address(),
    {
        let request: [u8; 1] = [register.addr() | AUTO_INCREMENT];
        let response = match self.i2c.write_then_read(self.address, request.as_slice(), 2) {
            Ok(response) => response,
            Err(e) => {
                return Err(e);
            },
        };
        Ok(decode_i16_le(response[0], response[1]))
    }

    /// Read one snapshot: the raw temperature code, the three accelerometer
    /// axes and the three magnetometer axes, each as a little-endian signed
    /// word.  The snapshot carries the scale divisors active at this read,
    /// so a later reconfiguration never retroactively alters it.
    pub fn read_measurements(&mut self) -> (r: Result<Measurements, BusError>)
        ensures
            final(self).spec_acc_divider() == old(self).spec_acc_divider(),
            final(self).spec_mag_divider() == old(self).spec_mag_divider(),
            final(self).spec_address() == old(self).spec_address(),
            r matches Ok(m) ==> m.acc_divider == old(self).spec_acc_divider() && m.mag_divider
                == old(self).spec_mag_divider(),
    {
        let temperature = match self.read_i16_register(Register::TempOutL) {
            Ok(v) => v,
            Err(e) => {
                return Err(e);
            },
        };

        let acc_x = match self.read_i16_register(Register::OutXLA) {
            Ok(v) => v,
            Err(e) => {
                return Err(e);
            },
        };
        let acc_y = match self.read_i16_register(Register::OutYLA) {
            Ok(v) => v,
            Err(e) => {
                return Err(e);
            },
        };
        let acc_z = match self.read_i16_register(Register::OutZLA) {
            Ok(v) => v,
            Err(e) => {
                return Err(e);
            },
        };

        let mag_x = match self.read_i16_register(Register::OutXLM) {
            Ok(v) => v,
            Err(e) => {
                return Err(e);
            },
        };
        let mag_y = match self.read_i16_register(Register::OutYLM) {
            Ok(v) => v,
            Err(e) => {
                return Err(e);
            },
        };
        let mag_z = match self.read_i16_register(Register::OutZLM) {
            Ok(v) => v,
            Err(e) => {
                return Err(e);
            },
        };

        Ok(
            Measurements {
                temperature,
                accelerometer: AccelerometerMeasurements { x: acc_x, y: acc_y, z: acc_z },
                magnetometer: MagnetometerMeasurements { x: mag_x, y: mag_y, z: mag_z },
                acc_divider: self.acc_divider,
                mag_divider: self.mag_divider,
            },
        )
    }
}

} // verus!
