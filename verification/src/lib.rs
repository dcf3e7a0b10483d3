//! Driver core for the ILI9341 TFT display controller.
//!
//! The controller takes commands over a narrow command/data bus and has no
//! readable status. This crate computes what has to go over that bus (the
//! command frames, the pixel windows, the pin sequences of a transport) and
//! keeps the driver's state; the code around it owns the bus, the reset line
//! and the delay source and performs what this crate hands out, in order.
//!
//! ```ignore
//! let (mut display, power_up) = Ili9341::new(Orientation::Landscape, DisplaySize240x320);
//! for step in power_up.iter() {
//!     // drive the reset line, wait, or send the frame
//! }
//! let draw = display.draw_raw_slice(0, 0, 9, 0, &pixels);
//! // send draw.window[0], draw.window[1], draw.write, then draw.pixels
//! ```

pub mod batch;
pub mod command;
pub mod controller;
pub mod gpio;
pub mod graphics;
pub mod init;
pub mod interface;
pub mod orientation;
pub mod scroll;
pub mod serial;
pub mod size;

pub use crate::controller::{Draw, Ili9341};
pub use crate::orientation::{Mode, Orientation};
pub use crate::scroll::Scroller;
pub use crate::size::{DisplaySize, DisplaySize240x320, DisplaySize320x480};
