//! Driver for a monochrome display controller on a write-only serial bus
//! with a two-wire command/data latch: a chip-enable line frames each
//! transfer and a data/command line selects whether the bytes are commands
//! or frame data.  A reset line initialises the chip.
//!
//! The controller is an output-only collaborator: nothing can be read back,
//! so the driver's obligations end at sending the documented byte sequences.

pub mod font;
pub mod graphics;

use vstd::prelude::*;

use crate::bus::{OutputPin, SpiWrite};

verus! {

/// Commands of the controller's instruction set.
#[allow(dead_code)]
#[derive(Clone, Copy, Debug)]
enum Instruction {
    Nop,
    FunctionSet,
    DisplayControl,
    Contrast,
    BiasMode,
}

impl Instruction {
    /// The command byte's base bit pattern.
    spec fn spec_bits(self) -> u8 {
        match self {
            Instruction::Nop => 0x00,
            Instruction::FunctionSet => 0x20,
            Instruction::DisplayControl => 0x08,
            Instruction::Contrast => 0x80,
            Instruction::BiasMode => 0x10,
        }
    }

    /// Return the command byte's base bit pattern.
    fn bits(self) -> (r: u8)
        ensures
            r == self.spec_bits(),
    {
        match self {
            Instruction::Nop => 0x00,
            Instruction::FunctionSet => 0x20,
            Instruction::DisplayControl => 0x08,
            Instruction::Contrast => 0x80,
            Instruction::BiasMode => 0x10,
        }
    }
}

/// The function-set command's instruction-set selector.
#[derive(Clone, Copy, Debug)]
enum ExtendedSet {
    Extended,
    Standard,
}

impl ExtendedSet {
    /// The selector's bit pattern within the function-set command.
    spec fn spec_bits(self) -> u8 {
        match self {
            ExtendedSet::Extended => 0x01,
            ExtendedSet::Standard => 0x00,
        }
    }

    /// Return the selector's bit pattern.
    fn bits(self) -> (r: u8)
        ensures
            r == self.spec_bits(),
    {
        match self {
            ExtendedSet::Extended => 0x01,
            ExtendedSet::Standard => 0x00,
        }
    }
}

/// Addressing order of the frame memory.
#[allow(non_camel_case_types)]
#[derive(Clone, Copy, Debug, PartialEq, Eq, Structural)]
pub enum Addressing {
    HORIZONTAL,
    VERTICAL,
}

impl Addressing {
    /// The addressing order's bit pattern within the function-set command.
    pub open spec fn spec_bits(self) -> u8 {
        match self {
            Addressing::HORIZONTAL => 0x02,
            Addressing::VERTICAL => 0x00,
        }
    }

    /// Return the addressing order's bit pattern.
    pub fn bits(self) -> (r: u8)
        ensures
            r == self.spec_bits(),
    {
        match self {
            Addressing::HORIZONTAL => 0x02,
            Addressing::VERTICAL => 0x00,
        }
    }
}

/// Display modes of the display-control command.
#[derive(Clone, Copy, Debug, PartialEq, Eq, Structural)]
pub enum DisplayMode {
    Blank,
    Normal,
    AllOn,
    Inverse,
}

impl DisplayMode {
    /// The mode's bit pattern within the display-control command.
    pub open spec fn spec_bits(self) -> u8 {
        match self {
            DisplayMode::Blank => 0x00,
            DisplayMode::Normal => 0x04,
            DisplayMode::AllOn => 0x01,
            DisplayMode::Inverse => 0x05,
        }
    }

    /// Return the mode's bit pattern.
    pub fn bits(self) -> (r: u8)
        ensures
            r == self.spec_bits(),
    {
        match self {
            DisplayMode::Blank => 0x00,
            DisplayMode::Normal => 0x04,
            DisplayMode::AllOn => 0x01,
            DisplayMode::Inverse => 0x05,
        }
    }
}

/// A display controller handle.  Owns the serial bus and the three control
/// lines exclusively.
pub struct Pcd8544<SPI, CE, DC, RST> {
    spi: SPI,
    lcd_rst: RST,
    lcd_ce: CE,
    lcd_dc: DC,
}

impl<SPI: SpiWrite, CE: OutputPin, DC: OutputPin, RST: OutputPin> Pcd8544<SPI, CE, DC, RST> {
    /// Take exclusive ownership of the transport lines and pulse the reset
    /// line once.  Any failing line operation is surfaced immediately.
    pub fn new(spi: SPI, lcd_ce: CE, lcd_dc: DC, lcd_rst: RST) -> (r: Result<Self, ()>) {
        let mut n = Self { spi, lcd_ce, lcd_dc, lcd_rst };
        match n.reset() {
            Ok(()) => (),
            Err(()) => {
                return Err(());
            },
        }
        Ok(n)
    }

    /// Pulse the reset line low and back high.
    pub fn reset(&mut self) -> (r: Result<(), ()>) {
        match self.lcd_rst.set_low() {
            Ok(()) => (),
            Err(_) => {
                return Err(());
            },
        }
        match self.lcd_rst.set_high() {
            Ok(()) => (),
            Err(_) => {
                return Err(());
            },
        }
        Ok(())
    }

    /// Reset the chip and send the documented initialisation sequence:
    /// extended instruction set, bias, contrast, standard instruction set,
    /// and the normal display mode.
    pub fn init(&mut self) -> (r: Result<(), ()>) {
        match self.reset() {
            Ok(()) => (),
            Err(()) => {
                return Err(());
            },
        }

        match self.lcd_cmd(Instruction::FunctionSet.bits() | ExtendedSet::Extended.bits()) {
            Ok(()) => (),
            Err(()) => {
                return Err(());
            },
        }
        match self.set_bias(0x04) {
            Ok(()) => (),
            Err(()) => {
                return Err(());
            },
        }
        match self.set_contrast(0x3f) {
            Ok(()) => (),
            Err(()) => {
                return Err(());
            },
        }
        match self.lcd_cmd(Instruction::FunctionSet.bits() | ExtendedSet::Standard.bits()) {
            Ok(()) => (),
            Err(()) => {
                return Err(());
            },
        }
        match self.lcd_cmd(Instruction::DisplayControl.bits() | DisplayMode::Normal.bits()) {
            Ok(()) => (),
            Err(()) => {
                return Err(());
            },
        }
        Ok(())
    }

    /// Send the contrast command with the given level.
    pub fn set_contrast(&mut self, contrast: u8) -> (r: Result<(), ()>) {
        self.lcd_cmd(Instruction::Contrast.bits() | contrast)
    }

    /// Send the bias-mode command with the given bias.
    fn set_bias(&mut self, bias: u8) -> (r: Result<(), ()>) {
        self.lcd_cmd(Instruction::BiasMode.bits() | bias)
    }

    /// Send one command byte: latch the data/command line low, frame the
    /// byte with the chip-enable line, and release both lines high.
    fn lcd_cmd(&mut self, cmd: u8) -> (r: Result<(), ()>) {
        match self.lcd_ce.set_low() {
            Ok(()) => (),
            Err(_) => {
                return Err(());
            },
        }
        match self.lcd_dc.set_low() {
            Ok(()) => (),
            Err(_) => {
                return Err(());
            },
        }
        let bytes: [u8; 1] = [cmd];
        match self.spi.write(bytes.as_slice()) {
            Ok(()) => (),
            Err(_) => {
                return Err(());
            },
        }
        match self.lcd_ce.set_high() {
            Ok(()) => (),
            Err(_) => {
                return Err(());
            },
        }
        match self.lcd_dc.set_high() {
            Ok(()) => (),
            Err(_) => {
                return Err(());
            },
        }
        Ok(())
    }

    /// Send one full frame of 504 column bytes: latch the data/command line
    /// high, frame the transfer with the chip-enable line.
    pub fn lcd_data(&mut self, data: &[u8; 504]) -> (r: Result<(), ()>) {
        match self.lcd_dc.set_high() {
            Ok(()) => (),
            Err(_) => {
                return Err(());
            },
        }
        match self.lcd_ce.set_low() {
            Ok(()) => (),
            Err(_) => {
                return Err(());
            },
        }
        match self.spi.write(data.as_slice()) {
            Ok(()) => (),
            Err(_) => {
                return Err(());
            },
        }
        match self.lcd_ce.set_high() {
            Ok(()) => (),
            Err(_) => {
                return Err(());
            },
        }
        Ok(())
    }
}

} // verus!
