use ili9341::command::{Command, Frame, MAX_ARGS};
use ili9341::init::{PanelProfile, Step};
use ili9341::{DisplaySize, DisplaySize240x320, DisplaySize320x480, Ili9341, Mode, Orientation};

#[derive(Debug, PartialEq)]
enum Did {
    ResetLow,
    ResetHigh,
    Delay(u16),
    Sent(u8, Vec<u8>),
}

fn did(step: &Step) -> Did {
    match step {
        Step::ResetLow => Did::ResetLow,
        Step::ResetHigh => Did::ResetHigh,
        Step::DelayMs(ms) => Did::Delay(*ms),
        Step::Send(frame) => Did::Sent(frame.opcode(), frame.args().to_vec()),
    }
}

fn all(steps: &[Step]) -> Vec<Did> {
    steps.iter().map(did).collect()
}

fn bytes(frame: &Frame) -> (u8, Vec<u8>) {
    (frame.opcode(), frame.args().to_vec())
}

fn power_up(register: u8) -> Vec<Did> {
    vec![
        Did::ResetLow,
        Did::Delay(1),
        Did::ResetHigh,
        Did::Delay(5),
        Did::Sent(0x01, vec![]),
        Did::Delay(120),
        Did::Sent(0x36, vec![register]),
        Did::Sent(0x3a, vec![0x55]),
        Did::Sent(0x11, vec![]),
        Did::Delay(5),
        Did::Sent(0x29, vec![]),
    ]
}

/// A board whose panel is mounted upside down and mirrored.
struct Mirrored;

impl Mode for Mirrored {
    fn register(&self) -> u8 {
        0xc8
    }

    fn landscape(&self) -> bool {
        false
    }

    fn mode(&self) -> u8 {
        0xc8
    }

    fn is_landscape(&self) -> bool {
        false
    }
}

struct Tiny;

impl DisplaySize for Tiny {
    const WIDTH: usize = 8;
    const HEIGHT: usize = 16;
}

#[test]
fn opcodes_match_the_datasheet() {
    assert_eq!(Command::SoftwareReset.opcode(), 0x01);
    assert_eq!(Command::SleepOut.opcode(), 0x11);
    assert_eq!(Command::GammaSet.opcode(), 0x26);
    assert_eq!(Command::DisplayOn.opcode(), 0x29);
    assert_eq!(Command::ColumnAddressSet.opcode(), 0x2a);
    assert_eq!(Command::PageAddressSet.opcode(), 0x2b);
    assert_eq!(Command::MemoryWrite.opcode(), 0x2c);
    assert_eq!(Command::VerticalScrollDefine.opcode(), 0x33);
    assert_eq!(Command::MemoryAccessControl.opcode(), 0x36);
    assert_eq!(Command::VerticalScrollAddr.opcode(), 0x37);
    assert_eq!(Command::PixelFormatSet.opcode(), 0x3a);
}

#[test]
fn orientation_register_values() {
    assert_eq!(Orientation::Portrait.mode(), 0x48);
    assert_eq!(Orientation::Landscape.mode(), 0x28);
    assert_eq!(Orientation::PortraitFlipped.mode(), 0x88);
    assert_eq!(Orientation::LandscapeFlipped.mode(), 0xe8);
}

#[test]
fn orientation_landscape_class() {
    assert!(!Orientation::Portrait.is_landscape());
    assert!(!Orientation::PortraitFlipped.is_landscape());
    assert!(Orientation::Landscape.is_landscape());
    assert!(Orientation::LandscapeFlipped.is_landscape());
}

#[test]
fn frame_holds_up_to_fifteen_parameters() {
    let gamma = [7u8; MAX_ARGS];
    let frame = Frame::new(0xe0, &gamma).unwrap();
    assert_eq!(bytes(&frame), (0xe0, gamma.to_vec()));
    assert!(Frame::new(0xe0, &[7u8; 16]).is_none());
    let empty = Frame::new(0x29, &[]).unwrap();
    assert_eq!(bytes(&empty), (0x29, vec![]));
}

#[test]
fn frame_of_a_command_carries_its_opcode() {
    let frame = Frame::command(Command::PixelFormatSet, &[0x55]).unwrap();
    assert_eq!(bytes(&frame), (0x3a, vec![0x55]));
    assert!(Frame::command(Command::GammaSet, &[0u8; 16]).is_none());
}

#[test]
fn split_is_big_endian() {
    assert_eq!(ili9341::command::split(0x0123), (0x01, 0x23));
    assert_eq!(ili9341::command::split(0xffff), (0xff, 0xff));
    assert_eq!(ili9341::command::split(0), (0, 0));
    assert_eq!(ili9341::command::split(0x00ff), (0x00, 0xff));
    assert_eq!(ili9341::command::split(0xff00), (0xff, 0x00));
}

#[test]
fn power_up_sequence_portrait() {
    let (display, steps) = Ili9341::new(Orientation::Portrait, DisplaySize240x320);
    assert_eq!(all(&steps), power_up(0x48));
    assert_eq!((display.width(), display.height()), (240, 320));
}

#[test]
fn power_up_sequence_landscape() {
    let (display, steps) = Ili9341::new(Orientation::Landscape, DisplaySize240x320);
    assert_eq!(all(&steps), power_up(0x28));
    assert_eq!((display.width(), display.height()), (320, 240));
}

#[test]
fn power_up_sequence_flipped() {
    let (display, steps) = Ili9341::new(Orientation::PortraitFlipped, DisplaySize320x480);
    assert_eq!(all(&steps), power_up(0x88));
    assert_eq!((display.width(), display.height()), (320, 480));
    let (display, steps) = Ili9341::new(Orientation::LandscapeFlipped, DisplaySize320x480);
    assert_eq!(all(&steps), power_up(0xe8));
    assert_eq!((display.width(), display.height()), (480, 320));
}

#[test]
fn power_up_waits_longest_after_software_reset() {
    let (_, steps) = Ili9341::new(Orientation::Portrait, DisplaySize240x320);
    assert_eq!(steps.len(), 11);
    assert_eq!(did(&steps[4]), Did::Sent(0x01, vec![]));
    assert_eq!(did(&steps[5]), Did::Delay(120));
    assert_eq!(did(&steps[8]), Did::Sent(0x11, vec![]));
    assert_eq!(did(&steps[9]), Did::Delay(5));
}

#[test]
fn power_up_for_a_custom_board() {
    let (display, steps) = Ili9341::new(Mirrored, Tiny);
    assert_eq!(all(&steps), power_up(0xc8));
    assert_eq!((display.width(), display.height()), (8, 16));
}

#[test]
fn standard_profile_is_the_plain_sequence() {
    let (display, steps) =
        Ili9341::with_profile(Orientation::Landscape, DisplaySize240x320, PanelProfile::Standard);
    assert_eq!(all(&steps), power_up(0x28));
    assert_eq!((display.width(), display.height()), (320, 240));
}

#[test]
fn full_tuning_goes_out_after_the_reset() {
    let tuning = [
        Frame::new(0xcb, &[0x39, 0x2c, 0x00, 0x34, 0x02]).unwrap(),
        Frame::new(0xcf, &[0x00, 0xc1, 0x30]).unwrap(),
        Frame::new(0x26, &[0x01]).unwrap(),
    ];
    let (display, steps) = Ili9341::with_profile(
        Orientation::Portrait,
        DisplaySize240x320,
        PanelProfile::FullTuning(&tuning),
    );
    let mut expected = power_up(0x48);
    expected.insert(6, Did::Sent(0x26, vec![0x01]));
    expected.insert(6, Did::Sent(0xcf, vec![0x00, 0xc1, 0x30]));
    expected.insert(6, Did::Sent(0xcb, vec![0x39, 0x2c, 0x00, 0x34, 0x02]));
    assert_eq!(all(&steps), expected);
    assert_eq!((display.width(), display.height()), (240, 320));
}

#[test]
fn empty_tuning_changes_nothing() {
    let (_, steps) =
        Ili9341::with_profile(Orientation::Portrait, DisplaySize240x320, PanelProfile::FullTuning(&[]));
    assert_eq!(all(&steps), power_up(0x48));
}

#[test]
fn set_orientation_sends_the_register_value() {
    let (mut display, _) = Ili9341::new(Orientation::Portrait, DisplaySize240x320);
    assert_eq!(bytes(&display.set_orientation(Orientation::Landscape)), (0x36, vec![0x28]));
    assert_eq!(bytes(&display.set_orientation(Orientation::PortraitFlipped)), (0x36, vec![0x88]));
    assert_eq!(bytes(&display.set_orientation(Orientation::LandscapeFlipped)), (0x36, vec![0xe8]));
    assert_eq!(bytes(&display.set_orientation(Orientation::Portrait)), (0x36, vec![0x48]));
    assert_eq!(bytes(&display.set_orientation(Mirrored)), (0x36, vec![0xc8]));
}

#[test]
fn size_swaps_only_when_the_class_changes() {
    let (mut display, _) = Ili9341::new(Orientation::Portrait, DisplaySize240x320);
    let turns = [
        (Orientation::Portrait, (240, 320)),
        (Orientation::PortraitFlipped, (240, 320)),
        (Orientation::Landscape, (320, 240)),
        (Orientation::Landscape, (320, 240)),
        (Orientation::LandscapeFlipped, (320, 240)),
        (Orientation::Portrait, (240, 320)),
        (Orientation::LandscapeFlipped, (320, 240)),
        (Orientation::PortraitFlipped, (240, 320)),
        (Orientation::Landscape, (320, 240)),
    ];
    for (mode, size) in turns {
        display.set_orientation(mode);
        assert_eq!((display.width(), display.height()), size);
    }
}

#[test]
fn size_after_every_pair_of_orientations() {
    let modes = [
        Orientation::Portrait,
        Orientation::PortraitFlipped,
        Orientation::Landscape,
        Orientation::LandscapeFlipped,
    ];
    for first in modes {
        for second in modes {
            let (mut display, _) = Ili9341::new(first, DisplaySize320x480);
            display.set_orientation(second);
            let expected = if second.is_landscape() { (480, 320) } else { (320, 480) };
            assert_eq!((display.width(), display.height()), expected);
        }
    }
}

#[test]
fn repeated_orientation_is_idempotent() {
    let (mut display, _) = Ili9341::new(Orientation::Landscape, DisplaySize240x320);
    for _ in 0..5 {
        display.set_orientation(Orientation::Landscape);
        assert_eq!((display.width(), display.height()), (320, 240));
    }
}

#[test]
fn set_window_sends_columns_then_rows() {
    let (display, _) = Ili9341::new(Orientation::Portrait, DisplaySize240x320);
    let window = display.set_window(0x0012, 0x0103, 0x00ef, 0x013f);
    assert_eq!(bytes(&window[0]), (0x2a, vec![0x00, 0x12, 0x00, 0xef]));
    assert_eq!(bytes(&window[1]), (0x2b, vec![0x01, 0x03, 0x01, 0x3f]));
}

#[test]
fn set_window_does_not_clamp_or_reorder() {
    let (display, _) = Ili9341::new(Orientation::Portrait, DisplaySize240x320);
    let window = display.set_window(0xffff, 9, 0, 3);
    assert_eq!(bytes(&window[0]), (0x2a, vec![0xff, 0xff, 0x00, 0x00]));
    assert_eq!(bytes(&window[1]), (0x2b, vec![0x00, 0x09, 0x00, 0x03]));
}

#[test]
fn draw_raw_slice_sets_the_window_then_writes() {
    let (display, _) = Ili9341::new(Orientation::Portrait, DisplaySize240x320);
    let colors: Vec<u16> = (0..10).map(|i| 0x1000 + i).collect();
    let draw = display.draw_raw_slice(0, 0, 9, 0, &colors);
    assert_eq!(draw.window.len(), 2);
    assert_eq!(bytes(&draw.window[0]), (0x2a, vec![0, 0, 0, 9]));
    assert_eq!(bytes(&draw.window[1]), (0x2b, vec![0, 0, 0, 0]));
    assert_eq!(bytes(&draw.write), (0x2c, vec![]));
    assert_eq!(draw.pixels, &colors[..]);
}

#[test]
fn draw_raw_iter_hands_the_source_through() {
    let (display, _) = Ili9341::new(Orientation::Landscape, DisplaySize240x320);
    let draw = display.draw_raw_iter(10, 20, 11, 21, [1u16, 2, 3, 4].into_iter());
    assert_eq!(bytes(&draw.window[0]), (0x2a, vec![0, 10, 0, 11]));
    assert_eq!(bytes(&draw.window[1]), (0x2b, vec![0, 20, 0, 21]));
    assert_eq!(bytes(&draw.write), (0x2c, vec![]));
    assert_eq!(draw.pixels.collect::<Vec<u16>>(), vec![1, 2, 3, 4]);
}

#[test]
fn draw_raw_iter_does_not_run_the_source() {
    let (display, _) = Ili9341::new(Orientation::Portrait, DisplaySize240x320);
    let endless = std::iter::repeat(0xf800u16);
    let draw = display.draw_raw_iter(0, 0, 239, 319, endless);
    assert_eq!(draw.pixels.take(3).collect::<Vec<u16>>(), vec![0xf800; 3]);
}
