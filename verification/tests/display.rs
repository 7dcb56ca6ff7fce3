use embedded_toolbox_rs::bus::{BusError, OutputPin, PinError, SpiWrite};
use embedded_toolbox_rs::pcd8544::font::{glyph, FONT, FONT_FIRST};
use embedded_toolbox_rs::pcd8544::graphics::{DisplayBuffer, DISPLAY_HEIGHT, DISPLAY_WIDTH};
use embedded_toolbox_rs::pcd8544::Pcd8544;

#[test]
fn new_buffer_is_blank() {
    let buffer = DisplayBuffer::new();
    assert!(buffer.data.iter().all(|b| *b == 0));
    assert_eq!(buffer.data.len(), DISPLAY_WIDTH * DISPLAY_HEIGHT / 8);
}

#[test]
fn put_pixel_sets_one_bit() {
    let mut buffer = DisplayBuffer::new();
    buffer.put_pixel(3, 0);
    assert_eq!(buffer.data[3], 0b0000_0001);
    buffer.put_pixel(3, 7);
    assert_eq!(buffer.data[3], 0b1000_0001);
    buffer.put_pixel(0, 8);
    assert_eq!(buffer.data[84], 0b0000_0001);
    buffer.put_pixel(83, 47);
    assert_eq!(buffer.data[5 * 84 + 83], 0b1000_0000);
    // everything else is still blank
    let touched = [3usize, 84, 5 * 84 + 83];
    for (i, b) in buffer.data.iter().enumerate() {
        if !touched.contains(&i) {
            assert_eq!(*b, 0);
        }
    }
}

#[test]
fn out_of_range_pixels_are_ignored() {
    let mut buffer = DisplayBuffer::new();
    buffer.put_pixel(84, 0);
    buffer.put_pixel(0, 48);
    buffer.put_pixel(1000, 1000);
    assert!(buffer.data.iter().all(|b| *b == 0));
    buffer.put_pixel(0, 0);
    buffer.clear_pixel(84, 0);
    buffer.clear_pixel(0, 48);
    assert_eq!(buffer.data[0], 1);
}

#[test]
fn clear_pixel_clears_only_one_bit() {
    let mut buffer = DisplayBuffer::new();
    buffer.put_pixel(10, 3);
    buffer.put_pixel(10, 4);
    buffer.clear_pixel(10, 3);
    assert_eq!(buffer.data[10], 0b0001_0000);
    buffer.clear_pixel(10, 4);
    assert_eq!(buffer.data[10], 0);
}

#[test]
fn glyph_lookup_covers_printable_range() {
    assert_eq!(glyph(b' '), [0, 0, 0, 0, 0]);
    assert_eq!(glyph(b'A'), FONT[(b'A' - FONT_FIRST) as usize]);
    assert_eq!(glyph(b'A'), [0x7E, 0x11, 0x11, 0x11, 0x7E]);
    // Bytes outside the printable range render blank.
    assert_eq!(glyph(0x00), [0, 0, 0, 0, 0]);
    assert_eq!(glyph(0x1F), [0, 0, 0, 0, 0]);
    assert_eq!(glyph(0x80), [0, 0, 0, 0, 0]);
    assert_eq!(glyph(0xFF), [0, 0, 0, 0, 0]);
}

#[test]
fn text_lands_at_cell_offsets() {
    let mut buffer = DisplayBuffer::new();
    buffer.text_mode_put_text(b"AB", 2, 1);
    let base = 84 * 1 + 6 * 2;
    let glyph_a = glyph(b'A');
    let glyph_b = glyph(b'B');
    for k in 0..5 {
        assert_eq!(buffer.data[base + k], glyph_a[k]);
        assert_eq!(buffer.data[base + 6 + k], glyph_b[k]);
    }
    // The separator column between the cells stays blank...
    assert_eq!(buffer.data[base + 5], 0);
    // ...and bytes before and after the cells are untouched.
    assert_eq!(buffer.data[base - 1], 0);
    assert_eq!(buffer.data[base + 11], 0);
}

#[test]
fn text_overwrites_previous_cell_contents() {
    let mut buffer = DisplayBuffer::new();
    buffer.text_mode_put_text(b"8", 0, 0);
    buffer.text_mode_put_text(b" ", 0, 0);
    assert!(buffer.data.iter().all(|b| *b == 0));
}

/// A serial bus that records every byte clocked out.
struct RecordingSpi {
    bytes: std::rc::Rc<std::cell::RefCell<Vec<Vec<u8>>>>,
}

impl SpiWrite for RecordingSpi {
    fn write(&mut self, bytes: &[u8]) -> Result<(), BusError> {
        self.bytes.borrow_mut().push(bytes.to_vec());
        Ok(())
    }
}

/// A control line that records its level changes.
struct RecordingPin {
    levels: std::rc::Rc<std::cell::RefCell<Vec<bool>>>,
}

impl OutputPin for RecordingPin {
    fn set_high(&mut self) -> Result<(), PinError> {
        self.levels.borrow_mut().push(true);
        Ok(())
    }

    fn set_low(&mut self) -> Result<(), PinError> {
        self.levels.borrow_mut().push(false);
        Ok(())
    }
}

fn recording_controller() -> (
    Pcd8544<RecordingSpi, RecordingPin, RecordingPin, RecordingPin>,
    std::rc::Rc<std::cell::RefCell<Vec<Vec<u8>>>>,
    std::rc::Rc<std::cell::RefCell<Vec<bool>>>,
) {
    let bytes = std::rc::Rc::new(std::cell::RefCell::new(Vec::new()));
    let rst_levels = std::rc::Rc::new(std::cell::RefCell::new(Vec::new()));
    let spi = RecordingSpi { bytes: bytes.clone() };
    let ce = RecordingPin { levels: std::rc::Rc::new(std::cell::RefCell::new(Vec::new())) };
    let dc = RecordingPin { levels: std::rc::Rc::new(std::cell::RefCell::new(Vec::new())) };
    let rst = RecordingPin { levels: rst_levels.clone() };
    let controller = Pcd8544::new(spi, ce, dc, rst).unwrap();
    (controller, bytes, rst_levels)
}

#[test]
fn construction_pulses_reset() {
    let (_controller, bytes, rst_levels) = recording_controller();
    assert_eq!(*rst_levels.borrow(), vec![false, true]);
    assert!(bytes.borrow().is_empty());
}

#[test]
fn init_sends_documented_command_sequence() {
    let (mut controller, bytes, rst_levels) = recording_controller();
    controller.init().unwrap();
    // A second reset pulse from init itself.
    assert_eq!(*rst_levels.borrow(), vec![false, true, false, true]);
    // Extended set, bias, contrast, standard set, normal display mode.
    let sent: Vec<u8> = bytes.borrow().iter().map(|chunk| chunk[0]).collect();
    assert_eq!(sent, vec![0x21, 0x14, 0xBF, 0x20, 0x0C]);
}

#[test]
fn set_contrast_ors_the_level_into_the_command() {
    let (mut controller, bytes, _) = recording_controller();
    controller.set_contrast(0x3F).unwrap();
    assert_eq!(*bytes.borrow(), vec![vec![0xBF]]);
}

#[test]
fn lcd_data_clocks_out_the_whole_frame() {
    let (mut controller, bytes, _) = recording_controller();
    let mut frame = [0u8; 504];
    frame[0] = 0xAA;
    frame[503] = 0x55;
    controller.lcd_data(&frame).unwrap();
    let sent = bytes.borrow();
    assert_eq!(sent.len(), 1);
    assert_eq!(sent[0].len(), 504);
    assert_eq!(sent[0][0], 0xAA);
    assert_eq!(sent[0][503], 0x55);
}

/// A control line that fails at the transport level.
struct FailingPin;

impl OutputPin for FailingPin {
    fn set_high(&mut self) -> Result<(), PinError> {
        Err(PinError)
    }

    fn set_low(&mut self) -> Result<(), PinError> {
        Err(PinError)
    }
}

/// A serial bus that accepts everything.
struct SinkSpi;

impl SpiWrite for SinkSpi {
    fn write(&mut self, _bytes: &[u8]) -> Result<(), BusError> {
        Ok(())
    }
}

/// A control line that accepts everything.
struct SinkPin;

impl OutputPin for SinkPin {
    fn set_high(&mut self) -> Result<(), PinError> {
        Ok(())
    }

    fn set_low(&mut self) -> Result<(), PinError> {
        Ok(())
    }
}

#[test]
fn failing_reset_line_aborts_construction() {
    assert!(Pcd8544::new(SinkSpi, SinkPin, SinkPin, FailingPin).is_err());
}

#[test]
fn failing_control_line_surfaces_error() {
    let mut controller = Pcd8544::new(SinkSpi, FailingPin, SinkPin, SinkPin).unwrap();
    assert_eq!(controller.init(), Err(()));
    assert_eq!(controller.set_contrast(0x10), Err(()));
}

#[test]
fn draw_square_fills_and_clears_a_rectangle() {
    let mut buffer = DisplayBuffer::new();
    // A 4x4 square at (2, 2) lives in bits 2..6 of columns 2..6 of row 0.
    buffer.draw_square(2, 2, 4, 4, true);
    for col in 2..6 {
        assert_eq!(buffer.data[col], 0b0011_1100);
    }
    for (i, b) in buffer.data.iter().enumerate() {
        if !(2..6).contains(&i) {
            assert_eq!(*b, 0);
        }
    }
    // Clearing the middle leaves a one-pixel frame of the square.
    buffer.draw_square(3, 3, 2, 2, false);
    assert_eq!(buffer.data[2], 0b0011_1100);
    assert_eq!(buffer.data[3], 0b0010_0100);
    assert_eq!(buffer.data[4], 0b0010_0100);
    assert_eq!(buffer.data[5], 0b0011_1100);
}

#[test]
fn draw_square_spanning_byte_rows_and_the_edge() {
    let mut buffer = DisplayBuffer::new();
    // Crosses the boundary between the first and second byte row...
    buffer.draw_square(0, 6, 1, 4, true);
    assert_eq!(buffer.data[0], 0b1100_0000);
    assert_eq!(buffer.data[84], 0b0000_0011);
    // ...and a square hanging off the display only draws the visible part.
    let mut buffer = DisplayBuffer::new();
    buffer.draw_square(82, 46, 4, 4, true);
    assert_eq!(buffer.data[5 * 84 + 82], 0b1100_0000);
    assert_eq!(buffer.data[5 * 84 + 83], 0b1100_0000);
    let lit: usize = buffer.data.iter().map(|b| b.count_ones() as usize).sum();
    assert_eq!(lit, 4);
}
