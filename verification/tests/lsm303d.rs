use embedded_toolbox_rs::bus::{BusError, RegisterBus};
use embedded_toolbox_rs::lsm303d::{
    ctrl1_value, ctrl2_value, ctrl5_magnetometer_value, ctrl5_temperature_value, ctrl7_value,
    identity_matches, AccelerationDataRate, AccelerationFullScale, AccelerometerConfiguration,
    InternalTemperatureConfiguration, MagneticSensorMode, MagnetometerConfiguration,
    MagnetometerDataRate, MagnetometerFullScale, Register, IDENTITY, LSM303D,
};

/// A register-file mock: reads serve bytes from a 256-entry register image,
/// writes update it, and every transaction is recorded.
struct MockBus {
    registers: [u8; 256],
    writes: Vec<(u8, Vec<u8>)>,
    fail: bool,
}

impl MockBus {
    fn new() -> Self {
        MockBus { registers: [0; 256], writes: Vec::new(), fail: false }
    }
}

impl RegisterBus for MockBus {
    fn write_then_read(
        &mut self,
        _address: u8,
        request: &[u8],
        count: usize,
    ) -> Result<Vec<u8>, BusError> {
        if self.fail {
            return Err(BusError);
        }
        let start = request[0] & 0x7F; // auto-increment bit selects burst mode
        let mut out = Vec::new();
        for k in 0..count {
            out.push(self.registers[(start as usize + k) % 256]);
        }
        Ok(out)
    }

    fn write(&mut self, _address: u8, bytes: &[u8]) -> Result<(), BusError> {
        if self.fail {
            return Err(BusError);
        }
        self.writes.push((bytes[0], bytes[1..].to_vec()));
        let start = bytes[0] as usize;
        for (k, b) in bytes[1..].iter().enumerate() {
            self.registers[(start + k) % 256] = *b;
        }
        Ok(())
    }
}

#[test]
fn identity_check_accepts_only_the_documented_constant() {
    // True for the documented constant, false for every other byte value.
    for byte in 0..=255u8 {
        assert_eq!(identity_matches(byte), byte == 0b0100_1001);
    }
    assert_eq!(IDENTITY, 0x49);
}

#[test]
fn check_connection_reports_boolean() {
    let mut bus = MockBus::new();
    bus.registers[0x0F] = 0x49;
    let mut device = LSM303D::new(bus);
    assert_eq!(device.check_connection(), Ok(true));

    let mut bus = MockBus::new();
    bus.registers[0x0F] = 0x48;
    let mut device = LSM303D::new(bus);
    assert_eq!(device.check_connection(), Ok(false));

    let mut bus = MockBus::new();
    bus.fail = true;
    let mut device = LSM303D::new(bus);
    assert_eq!(device.check_connection(), Err(BusError));
}

#[test]
fn ctrl1_keeps_unrelated_bits() {
    // Writing the axis enables and the data rate leaves bit 3 (outside both
    // fields) exactly as it was.
    let cfg = AccelerometerConfiguration {
        axis_x: true,
        axis_y: false,
        axis_z: true,
        data_rate: AccelerationDataRate::Hz50,
        scale: AccelerationFullScale::Acc2G,
    };
    let r = ctrl1_value(0b0000_1000, cfg);
    assert_eq!(r, 0b0101_1101);
    let r = ctrl1_value(0b0000_0000, cfg);
    assert_eq!(r, 0b0101_0101);
}

#[test]
fn ctrl1_axis_bits_do_not_touch_data_rate_and_vice_versa() {
    // Toggling only axis enables keeps the data-rate field; changing only
    // the data rate keeps the axis bits.
    let base = AccelerometerConfiguration {
        axis_x: true,
        axis_y: true,
        axis_z: true,
        data_rate: AccelerationDataRate::Hz100,
        scale: AccelerationFullScale::Acc2G,
    };
    let only_axes_changed = AccelerometerConfiguration { axis_x: false, axis_y: false, ..base };
    let a = ctrl1_value(0xFF, base);
    let b = ctrl1_value(0xFF, only_axes_changed);
    assert_eq!(a & 0xF0, b & 0xF0);

    let only_rate_changed =
        AccelerometerConfiguration { data_rate: AccelerationDataRate::Hz1600, ..base };
    let c = ctrl1_value(0xFF, only_rate_changed);
    assert_eq!(a & 0x07, c & 0x07);
    assert_eq!(a & 0x08, c & 0x08);
}

#[test]
fn ctrl2_replaces_only_the_scale_field() {
    let cfg = AccelerometerConfiguration {
        axis_x: false,
        axis_y: false,
        axis_z: false,
        data_rate: AccelerationDataRate::PowerOff,
        scale: AccelerationFullScale::Acc16G,
    };
    let r = ctrl2_value(0b1100_0111, cfg);
    assert_eq!(r, 0b1110_0111);
}

#[test]
fn ctrl5_temperature_bit_spares_the_rest() {
    let on = InternalTemperatureConfiguration { active: true };
    let off = InternalTemperatureConfiguration { active: false };
    assert_eq!(ctrl5_temperature_value(0b0001_0100, on), 0b1001_0100);
    assert_eq!(ctrl5_temperature_value(0b1001_0100, off), 0b0001_0100);
}

#[test]
fn ctrl5_magnetometer_rate_spares_the_temperature_bit() {
    let cfg = MagnetometerConfiguration {
        data_rate: MagnetometerDataRate::Hz50,
        scale: MagnetometerFullScale::Mag2Gauss,
        mode: MagneticSensorMode::ContinuousConversion,
    };
    // Bit 7 (thermometer enable) and bits 0..1 survive the rate write.
    assert_eq!(ctrl5_magnetometer_value(0b1000_0011, cfg), 0b1001_0011);
}

#[test]
fn ctrl7_mode_spares_high_bits() {
    let cfg = MagnetometerConfiguration {
        data_rate: MagnetometerDataRate::Hz50,
        scale: MagnetometerFullScale::Mag2Gauss,
        mode: MagneticSensorMode::PowerDown,
    };
    assert_eq!(ctrl7_value(0b1111_1101, cfg), 0b1111_1110);
}

#[test]
fn configure_accelerometer_records_each_documented_divisor() {
    // Each full-scale option records exactly its documented divisor.
    let options = [
        (AccelerationFullScale::Acc2G, 2.0),
        (AccelerationFullScale::Acc4G, 4.0),
        (AccelerationFullScale::Acc6G, 6.0),
        (AccelerationFullScale::Acc8G, 8.0),
        (AccelerationFullScale::Acc16G, 16.0),
    ];
    for (scale, divisor) in options {
        let mut device = LSM303D::new(MockBus::new());
        device
            .configure_accelerometer(AccelerometerConfiguration {
                axis_x: true,
                axis_y: true,
                axis_z: true,
                data_rate: AccelerationDataRate::Hz50,
                scale,
            })
            .unwrap();
        assert_eq!(device.acc_divider() as f64, divisor);
    }
}

#[test]
fn configure_magnetometer_records_each_documented_divisor() {
    let options = [
        (MagnetometerFullScale::Mag2Gauss, 2.0),
        (MagnetometerFullScale::Mag4Gauss, 4.0),
        (MagnetometerFullScale::Mag8Gauss, 8.0),
        (MagnetometerFullScale::Mag12Gauss, 12.0),
    ];
    for (scale, divisor) in options {
        let mut device = LSM303D::new(MockBus::new());
        device
            .configure_magnetometer(MagnetometerConfiguration {
                data_rate: MagnetometerDataRate::Hz50,
                scale,
                mode: MagneticSensorMode::ContinuousConversion,
            })
            .unwrap();
        assert_eq!(device.mag_divider() as f64, divisor);
    }
}

#[test]
fn failed_configuration_keeps_previous_divisor() {
    let mut device = LSM303D::new(MockBus::new());
    device
        .configure_accelerometer(AccelerometerConfiguration {
            axis_x: true,
            axis_y: true,
            axis_z: true,
            data_rate: AccelerationDataRate::Hz50,
            scale: AccelerationFullScale::Acc4G,
        })
        .unwrap();
    assert_eq!(device.acc_divider(), 4);
    // now break the bus: reconfiguration fails and the divisor stays
    let mut device = LSM303D::new(MockBus { registers: [0; 256], writes: Vec::new(), fail: true });
    assert_eq!(
        device.configure_accelerometer(AccelerometerConfiguration {
            axis_x: true,
            axis_y: true,
            axis_z: true,
            data_rate: AccelerationDataRate::Hz50,
            scale: AccelerationFullScale::Acc16G,
        }),
        Err(BusError)
    );
    assert_eq!(device.acc_divider(), 1);
}

#[test]
fn measurement_carries_active_divisors_for_conversion() {
    let mut bus = MockBus::new();
    // little-endian raw codes: temperature 0x0102, acc x 16384, y/z 0,
    // mag x -16384, y/z 0
    bus.registers[0x05] = 0x02;
    bus.registers[0x06] = 0x01;
    bus.registers[0x28] = 0x00;
    bus.registers[0x29] = 0x40;
    bus.registers[0x08] = 0x00;
    bus.registers[0x09] = 0xC0;
    let mut device = LSM303D::new(bus);
    device
        .configure_accelerometer(AccelerometerConfiguration {
            axis_x: true,
            axis_y: true,
            axis_z: true,
            data_rate: AccelerationDataRate::Hz50,
            scale: AccelerationFullScale::Acc2G,
        })
        .unwrap();
    device
        .configure_magnetometer(MagnetometerConfiguration {
            data_rate: MagnetometerDataRate::Hz50,
            scale: MagnetometerFullScale::Mag4Gauss,
            mode: MagneticSensorMode::ContinuousConversion,
        })
        .unwrap();

    let m = device.read_measurements().unwrap();
    assert_eq!(m.temperature, 0x0102);
    assert_eq!(m.accelerometer.x, 16384);
    assert_eq!(m.magnetometer.x, -16384);
    // The snapshot carries the divisors that were active at the read, so
    // the conversion uses them: 16384 * 2 / 32768 = 1 G.
    assert_eq!(m.acc_divider, 2);
    assert_eq!(m.mag_divider, 4);
    let g = m.accelerometer.x as f64 * m.acc_divider as f64 / 32768.0;
    assert_eq!(g, 1.0);
    let gauss = m.magnetometer.x as f64 * m.mag_divider as f64 / 32768.0;
    assert_eq!(gauss, -2.0);

    // Reconfiguring afterwards does not alter the earlier snapshot.
    device
        .configure_accelerometer(AccelerometerConfiguration {
            axis_x: true,
            axis_y: true,
            axis_z: true,
            data_rate: AccelerationDataRate::Hz50,
            scale: AccelerationFullScale::Acc16G,
        })
        .unwrap();
    assert_eq!(m.acc_divider, 2);
    let m2 = device.read_measurements().unwrap();
    assert_eq!(m2.acc_divider, 16);
}

/// A register-file mock sharing its state with the test, so the test can
/// inspect what the driver wrote after the driver consumed the bus.
#[derive(Clone)]
struct SharedBus {
    inner: std::rc::Rc<std::cell::RefCell<MockBus>>,
}

impl RegisterBus for SharedBus {
    fn write_then_read(
        &mut self,
        address: u8,
        request: &[u8],
        count: usize,
    ) -> Result<Vec<u8>, BusError> {
        self.inner.borrow_mut().write_then_read(address, request, count)
    }

    fn write(&mut self, address: u8, bytes: &[u8]) -> Result<(), BusError> {
        self.inner.borrow_mut().write(address, bytes)
    }
}

#[test]
fn configuration_writes_reach_the_documented_registers() {
    let shared = SharedBus { inner: std::rc::Rc::new(std::cell::RefCell::new(MockBus::new())) };
    let mut device = LSM303D::new(shared.clone());
    device
        .configure_accelerometer(AccelerometerConfiguration {
            axis_x: true,
            axis_y: true,
            axis_z: true,
            data_rate: AccelerationDataRate::Hz50,
            scale: AccelerationFullScale::Acc4G,
        })
        .unwrap();
    device
        .configure_internal_temperature(InternalTemperatureConfiguration { active: true })
        .unwrap();

    assert_eq!(Register::Ctrl1.addr(), 0x20);
    assert_eq!(Register::Ctrl2.addr(), 0x21);
    assert_eq!(Register::Ctrl5.addr(), 0x24);
    let image = shared.inner.borrow().registers;
    // Ctrl1: all three axes on, 50 Hz data rate.
    assert_eq!(image[0x20], 0b0101_0111);
    // Ctrl2: the 4G full-scale pattern in an otherwise blank register.
    assert_eq!(image[0x21], 0b0000_1000);
    // Ctrl5: the thermometer enable bit.
    assert_eq!(image[0x24], 0b1000_0000);
    let writes = shared.inner.borrow().writes.clone();
    assert_eq!(writes.len(), 3);
    assert_eq!(writes[0].0, 0x20);
    assert_eq!(writes[1].0, 0x21);
    assert_eq!(writes[2].0, 0x24);
}
