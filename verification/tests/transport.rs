use ili9341::gpio::{Gpio8Interface, Line, PinWrite};
use ili9341::interface::Interface;
use ili9341::serial::{SerialOp, SpiInterface};

fn pin(line: Line, high: bool) -> PinWrite {
    PinWrite { line, high }
}

fn byte_on_bus(byte: u8) -> Vec<PinWrite> {
    (0..8).map(|i| pin(Line::Data(i), byte & (1 << i) != 0)).collect()
}

fn strobe_of(byte: u8) -> Vec<PinWrite> {
    let mut v = vec![pin(Line::Wrx, false)];
    v.extend(byte_on_bus(byte));
    v.push(pin(Line::Wrx, true));
    v
}

fn transfer_of(command: u8, data: &[u8]) -> Vec<PinWrite> {
    let mut v = vec![pin(Line::Csx, false), pin(Line::Rdx, true), pin(Line::Dcx, false)];
    v.extend(strobe_of(command));
    v.push(pin(Line::Dcx, true));
    for b in data {
        v.extend(strobe_of(*b));
    }
    v.push(pin(Line::Csx, true));
    v
}

#[test]
fn data_bus_puts_bit_zero_on_line_zero() {
    let bus = Gpio8Interface::new().set_data_bus(0xa5);
    assert_eq!(
        bus.to_vec(),
        vec![
            pin(Line::Data(0), true),
            pin(Line::Data(1), false),
            pin(Line::Data(2), true),
            pin(Line::Data(3), false),
            pin(Line::Data(4), false),
            pin(Line::Data(5), true),
            pin(Line::Data(6), false),
            pin(Line::Data(7), true),
        ]
    );
}

#[test]
fn data_bus_for_every_byte() {
    let gpio = Gpio8Interface::new();
    for byte in 0..=255u8 {
        assert_eq!(gpio.set_data_bus(byte).to_vec(), byte_on_bus(byte));
    }
}

#[test]
fn strobe_pulses_the_write_line_around_the_byte() {
    let s = Gpio8Interface::new().strobe(0x01);
    assert_eq!(s.len(), 10);
    assert_eq!(s[0], pin(Line::Wrx, false));
    assert_eq!(s[1], pin(Line::Data(0), true));
    assert_eq!(s[2], pin(Line::Data(1), false));
    assert_eq!(s[9], pin(Line::Wrx, true));
}

#[test]
fn parallel_write_frames_command_and_data() {
    let ops = Gpio8Interface::new().write(0x2a, &[0x00, 0x10, 0x00, 0xef]);
    assert_eq!(ops.len(), 14 + 4 * 10 + 1);
    assert_eq!(ops, transfer_of(0x2a, &[0x00, 0x10, 0x00, 0xef]));
    assert_eq!(ops[0], pin(Line::Csx, false));
    assert_eq!(ops[1], pin(Line::Rdx, true));
    assert_eq!(ops[2], pin(Line::Dcx, false));
    assert_eq!(ops[3], pin(Line::Wrx, false));
    assert_eq!(ops[12], pin(Line::Wrx, true));
    assert_eq!(ops[13], pin(Line::Dcx, true));
    assert_eq!(ops[54], pin(Line::Csx, true));
}

#[test]
fn parallel_write_without_data() {
    let gpio = Gpio8Interface::new();
    let ops = gpio.write(0x29, &[]);
    assert_eq!(ops, transfer_of(0x29, &[]));
    let mut by_parts = gpio.select(0x29).to_vec();
    by_parts.push(gpio.release());
    assert_eq!(ops, by_parts);
}

#[test]
fn parallel_write_iter_sends_words_big_endian() {
    let ops = Gpio8Interface::new().write_iter(0x2c, &[0xf800, 0x001f, 0x1234]);
    assert_eq!(ops, transfer_of(0x2c, &[0xf8, 0x00, 0x00, 0x1f, 0x12, 0x34]));
}

#[test]
fn parallel_write_iter_equals_write_of_the_bytes() {
    let gpio = Gpio8Interface::new();
    assert_eq!(gpio.write_iter(0x2c, &[0xabcd, 0x00ff]), gpio.write(0x2c, &[0xab, 0xcd, 0x00, 0xff]));
    assert_eq!(gpio.write_iter(0x2c, &[]), gpio.write(0x2c, &[]));
}

#[test]
fn serial_write_frames_command_and_data() {
    let ops = SpiInterface::new().write(0x36, &[0x48]);
    assert_eq!(
        ops,
        vec![
            SerialOp::ChipSelect(false),
            SerialOp::DataCommand(false),
            SerialOp::Shift(0x36),
            SerialOp::DataCommand(true),
            SerialOp::Shift(0x48),
            SerialOp::ChipSelect(true),
        ]
    );
}

#[test]
fn serial_write_without_data() {
    let spi = SpiInterface::new();
    let ops = spi.write(0x01, &[]);
    let mut by_parts = spi.select(0x01).to_vec();
    by_parts.push(spi.release());
    assert_eq!(ops, by_parts);
    assert_eq!(ops.len(), 5);
}

#[test]
fn serial_write_iter_sends_words_big_endian() {
    let ops = SpiInterface::new().write_iter(0x2c, &[0xf800, 0x07e0]);
    assert_eq!(
        ops,
        vec![
            SerialOp::ChipSelect(false),
            SerialOp::DataCommand(false),
            SerialOp::Shift(0x2c),
            SerialOp::DataCommand(true),
            SerialOp::Shift(0xf8),
            SerialOp::Shift(0x00),
            SerialOp::Shift(0x07),
            SerialOp::Shift(0xe0),
            SerialOp::ChipSelect(true),
        ]
    );
}

#[test]
fn transports_carry_a_controller_frame() {
    let (display, _) =
        ili9341::Ili9341::new(ili9341::Orientation::Portrait, ili9341::DisplaySize240x320);
    let window = display.set_window(0, 0, 9, 0);
    let ops = SpiInterface::new().write(window[0].opcode(), window[0].args());
    assert_eq!(ops[2], SerialOp::Shift(0x2a));
    assert_eq!(&ops[4..8], &[SerialOp::Shift(0), SerialOp::Shift(0), SerialOp::Shift(0), SerialOp::Shift(9)]);
    let pins = Gpio8Interface::new().write(window[1].opcode(), window[1].args());
    assert_eq!(pins, transfer_of(0x2b, &[0, 0, 0, 0]));
}

#[test]
fn draw_on_the_serial_bus_is_three_transfers() {
    let (display, _) =
        ili9341::Ili9341::new(ili9341::Orientation::Portrait, ili9341::DisplaySize240x320);
    let colors: Vec<u16> = (0..10).map(|i| 0x0100 * i + 0x00f0).collect();
    let draw = display.draw_raw_slice(0, 0, 9, 0, &colors);
    let ops = ili9341::interface::send_draw(&SpiInterface::new(), &draw);
    let mut expected = vec![
        SerialOp::ChipSelect(false),
        SerialOp::DataCommand(false),
        SerialOp::Shift(0x2a),
        SerialOp::DataCommand(true),
        SerialOp::Shift(0),
        SerialOp::Shift(0),
        SerialOp::Shift(0),
        SerialOp::Shift(9),
        SerialOp::ChipSelect(true),
        SerialOp::ChipSelect(false),
        SerialOp::DataCommand(false),
        SerialOp::Shift(0x2b),
        SerialOp::DataCommand(true),
        SerialOp::Shift(0),
        SerialOp::Shift(0),
        SerialOp::Shift(0),
        SerialOp::Shift(0),
        SerialOp::ChipSelect(true),
        SerialOp::ChipSelect(false),
        SerialOp::DataCommand(false),
        SerialOp::Shift(0x2c),
        SerialOp::DataCommand(true),
    ];
    for i in 0..10u8 {
        expected.push(SerialOp::Shift(i));
        expected.push(SerialOp::Shift(0xf0));
    }
    expected.push(SerialOp::ChipSelect(true));
    assert_eq!(ops, expected);
}

#[test]
fn frame_on_the_parallel_bus_is_one_transfer() {
    let (mut display, _) =
        ili9341::Ili9341::new(ili9341::Orientation::Portrait, ili9341::DisplaySize240x320);
    let frame = display.set_orientation(ili9341::Orientation::LandscapeFlipped);
    let ops = ili9341::interface::send_frame(&Gpio8Interface::new(), &frame);
    assert_eq!(ops, transfer_of(0x36, &[0xe8]));
}
