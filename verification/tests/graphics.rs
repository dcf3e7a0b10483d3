use ili9341::graphics::Area;
use ili9341::{DisplaySize240x320, Ili9341, Orientation};

fn portrait() -> Ili9341 {
    Ili9341::new(Orientation::Portrait, DisplaySize240x320).0
}

fn area(x: i32, y: i32, width: u32, height: u32) -> Area {
    Area { x, y, width, height }
}

#[test]
fn size_and_bounds_follow_the_orientation() {
    let (mut display, _) = Ili9341::new(Orientation::Portrait, DisplaySize240x320);
    assert_eq!(display.size(), (240, 320));
    assert_eq!(display.bounding_box(), area(0, 0, 240, 320));
    display.set_orientation(Orientation::LandscapeFlipped);
    assert_eq!(display.size(), (320, 240));
    assert_eq!(display.bounding_box(), area(0, 0, 320, 240));
}

#[test]
fn area_contains_its_corners_only_inside() {
    let a = area(-2, 3, 4, 2);
    assert!(a.contains(-2, 3));
    assert!(a.contains(1, 4));
    assert!(!a.contains(2, 4));
    assert!(!a.contains(1, 5));
    assert!(!a.contains(-3, 3));
    assert!(!a.contains(-2, 2));
    assert!(!area(5, 5, 0, 3).contains(5, 5));
    assert!(!area(5, 5, 3, 0).contains(5, 5));
}

#[test]
fn fill_inside_the_screen_is_whole() {
    let fill = portrait().fill_contiguous(&area(10, 20, 30, 40)).unwrap();
    assert!(fill.is_whole());
    assert_eq!(fill.drawable(), area(10, 20, 30, 40));
    let window = fill.window();
    assert_eq!((window[0].opcode(), window[0].args()), (0x2a, &[0u8, 10, 0, 39][..]));
    assert_eq!((window[1].opcode(), window[1].args()), (0x2b, &[0u8, 20, 0, 59][..]));
    assert_eq!((fill.write().opcode(), fill.write().args().len()), (0x2c, 0));
}

#[test]
fn fill_of_the_whole_screen() {
    let fill = portrait().fill_contiguous(&area(0, 0, 240, 320)).unwrap();
    assert!(fill.is_whole());
    let window = fill.window();
    assert_eq!(window[0].args(), &[0, 0, 0, 239]);
    assert_eq!(window[1].args(), &[0, 0, 0x01, 0x3f]);
}

#[test]
fn fill_is_clipped_at_the_top_left() {
    let fill = portrait().fill_contiguous(&area(-5, -7, 10, 10)).unwrap();
    assert!(!fill.is_whole());
    assert_eq!(fill.drawable(), area(0, 0, 5, 3));
    let window = fill.window();
    assert_eq!(window[0].args(), &[0, 0, 0, 4]);
    assert_eq!(window[1].args(), &[0, 0, 0, 2]);
    assert!(fill.keeps(0, 0));
    assert!(fill.keeps(4, 2));
    assert!(!fill.keeps(-1, 0));
    assert!(!fill.keeps(0, -1));
    assert!(!fill.keeps(5, 0));
    assert!(!fill.keeps(0, 3));
}

#[test]
fn fill_is_clipped_at_the_bottom_right() {
    let fill = portrait().fill_contiguous(&area(230, 310, 100, 100)).unwrap();
    assert!(!fill.is_whole());
    assert_eq!(fill.drawable(), area(230, 310, 10, 10));
    let window = fill.window();
    assert_eq!(window[0].args(), &[0, 230, 0, 239]);
    assert_eq!(window[1].args(), &[0x01, 0x36, 0x01, 0x3f]);
    assert!(fill.keeps(239, 319));
    assert!(!fill.keeps(240, 319));
    assert!(!fill.keeps(239, 320));
}

#[test]
fn fill_larger_than_the_screen_is_clipped_to_it() {
    let fill = portrait().fill_contiguous(&area(-1000, -1000, 5000, 5000)).unwrap();
    assert!(!fill.is_whole());
    assert_eq!(fill.drawable(), area(0, 0, 240, 320));
}

#[test]
fn fill_off_the_screen_draws_nothing() {
    let display = portrait();
    assert!(display.fill_contiguous(&area(240, 0, 10, 10)).is_none());
    assert!(display.fill_contiguous(&area(0, 320, 10, 10)).is_none());
    assert!(display.fill_contiguous(&area(-10, 0, 10, 10)).is_none());
    assert!(display.fill_contiguous(&area(0, -10, 10, 10)).is_none());
    assert!(display.fill_contiguous(&area(-10, 0, 11, 10)).is_some());
}

#[test]
fn fill_without_pixels_draws_nothing() {
    let display = portrait();
    assert!(display.fill_contiguous(&area(10, 10, 0, 5)).is_none());
    assert!(display.fill_contiguous(&area(10, 10, 5, 0)).is_none());
    assert!(display.fill_contiguous(&area(0, 0, 0, 0)).is_none());
    assert!(display.fill_contiguous(&area(500, 500, 0, 0)).is_none());
}

#[test]
fn fill_keeps_the_colours_on_the_screen() {
    let target = area(238, -1, 4, 3);
    let fill = portrait().fill_contiguous(&target).unwrap();
    let colors: Vec<u16> = (0..12).collect();
    let mut sent = Vec::new();
    for (i, color) in colors.iter().enumerate() {
        let x = target.x + (i as i32 % 4);
        let y = target.y + (i as i32 / 4);
        if fill.keeps(x, y) {
            sent.push(*color);
        }
    }
    assert_eq!(fill.drawable(), area(238, 0, 2, 2));
    assert_eq!(sent, vec![4, 5, 8, 9]);
}
