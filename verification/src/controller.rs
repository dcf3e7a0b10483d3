//! The controller: the panel's logical size and orientation, and the frames
//! that its operations put on the bus.

use vstd::prelude::*;
use crate::command::{be_bytes, frame_of, frames_view, Command, Frame, FrameView};
use crate::init::{
    init_sequence, init_sequence_for, power_up, power_up_for, steps_view, PanelProfile, Step, INIT_STEPS,
};
use crate::orientation::Mode;
use crate::scroll::{Scroller, ScrollerView};
use crate::size::DisplaySize;

verus! {

/// The logical size of the screen and the way it is turned.
pub ghost struct Layout {
    /// Pixels per row, as the screen is turned now.
    pub width: nat,
    /// Rows, as the screen is turned now.
    pub height: nat,
    /// Whether the long side of the panel is horizontal.
    pub landscape: bool,
}

impl Layout {
    /// The layout of a panel of `width` x `height` pixels that has not been
    /// turned.
    pub open spec fn native(width: nat, height: nat) -> Layout {
        Layout { width, height, landscape: false }
    }

    /// The layout after the screen is set to an orientation that is
    /// landscape or not: width and height change places exactly when that
    /// differs from how the screen was turned before.
    pub open spec fn turned(self, landscape: bool) -> Layout {
        if self.landscape != landscape {
            Layout { width: self.height, height: self.width, landscape }
        } else {
            self
        }
    }

    /// The layout after the screen is set to each of `turns` in order.
    pub open spec fn turned_all(self, turns: Seq<bool>) -> Layout
        decreases turns.len(),
    {
        if turns.len() == 0 {
            self
        } else {
            self.turned_all(turns.drop_last()).turned(turns.last())
        }
    }

    /// The number of rows along the long side of the panel, whichever way
    /// the screen is turned.
    pub open spec fn long_side(self) -> nat {
        if self.landscape {
            self.width
        } else {
            self.height
        }
    }

    /// Whether the pixel at (`x`, `y`) lies on the screen.
    pub open spec fn contains(self, x: int, y: int) -> bool {
        0 <= x < self.width && 0 <= y < self.height
    }
}

/// The two frames that set the drawing window to the columns `x0..=x1` and
/// the rows `y0..=y1`.
pub open spec fn window_frames(x0: u16, y0: u16, x1: u16, y1: u16) -> Seq<FrameView> {
    seq![
        frame_of(Command::ColumnAddressSet, be_bytes(x0) + be_bytes(x1)),
        frame_of(Command::PageAddressSet, be_bytes(y0) + be_bytes(y1)),
    ]
}

/// A rectangle of pixels on its way to the panel.
///
/// The two `window` frames go out first, then `write`, then every value of
/// `pixels` as one 16-bit word, most significant byte first. The panel fills
/// the window row by row from its top left corner.
pub struct Draw<I> {
    /// The frames that set the drawing window: columns, then rows.
    pub window: [Frame; 2],
    /// The frame that starts the transfer of pixel data.
    pub write: Frame,
    /// The pixel values in RGB565, in the order in which they fill the
    /// window.
    pub pixels: I,
}

impl<I> Draw<I> {
    /// Whether this is the drawing of `pixels` into the window
    /// `x0..=x1` x `y0..=y1`.
    pub open spec fn is_draw(self, x0: u16, y0: u16, x1: u16, y1: u16, pixels: I) -> bool {
        &&& frames_view(self.window@) == window_frames(x0, y0, x1, y1)
        &&& self.write@ == frame_of(Command::MemoryWrite, Seq::empty())
        &&& self.pixels == pixels
    }
}

/// The driver's record of an ILI9341 panel.
///
/// There are two ways to draw: [`Ili9341::draw_raw_iter`] and
/// [`Ili9341::draw_raw_slice`]. Both take pixel values in RGB565 and a
/// window given by its two corners, both included in it.
#[derive(Clone, Copy, Debug)]
pub struct Ili9341 {
    width: usize,
    height: usize,
    landscape: bool,
}

impl View for Ili9341 {
    type V = Layout;

    closed spec fn view(&self) -> Layout {
        Layout { width: self.width as nat, height: self.height as nat, landscape: self.landscape }
    }
}

impl Ili9341 {
    #[verifier::type_invariant]
    spec fn well_formed(&self) -> bool {
        self.width <= u16::MAX && self.height <= u16::MAX
    }

    /// Sets up the driver for a panel of the native size `SIZE` that is to
    /// come up in the orientation `mode`.
    ///
    /// Returns the driver and the power-up sequence. The driver describes
    /// the panel as it is once every step of the sequence has been
    /// performed; if a step fails the panel is in no defined state, and
    /// the only way on is to start again here.
    ///
    /// Both sides of the panel must be addressable with 16 bits.
    pub fn new<MODE: Mode, SIZE: DisplaySize>(mode: MODE, _display_size: SIZE) -> (r: (
        Ili9341,
        [Step; INIT_STEPS],
    ))
        requires
            SIZE::WIDTH <= u16::MAX,
            SIZE::HEIGHT <= u16::MAX,
        ensures
            r.0@ == Layout::native(SIZE::WIDTH as nat, SIZE::HEIGHT as nat).turned(mode.landscape()),
            steps_view(r.1@) == init_sequence(mode.register()),
    {
        let mut ili9341 = Ili9341 { width: SIZE::WIDTH, height: SIZE::HEIGHT, landscape: false };
        let orient = ili9341.set_orientation(mode);
        (ili9341, power_up(orient))
    }

    /// Sets up the driver as [`Ili9341::new`] does, for a panel that is
    /// brought up as `profile` says: the frames of a full tuning go out
    /// after the software reset and before the orientation is set.
    pub fn with_profile<MODE: Mode, SIZE: DisplaySize>(
        mode: MODE,
        _display_size: SIZE,
        profile: PanelProfile<'_>,
    ) -> (r: (Ili9341, Vec<Step>))
        requires
            SIZE::WIDTH <= u16::MAX,
            SIZE::HEIGHT <= u16::MAX,
        ensures
            r.0@ == Layout::native(SIZE::WIDTH as nat, SIZE::HEIGHT as nat).turned(mode.landscape()),
            steps_view(r.1@) == init_sequence_for(mode.register(), profile.tuning()),
    {
        let mut ili9341 = Ili9341 { width: SIZE::WIDTH, height: SIZE::HEIGHT, landscape: false };
        let orient = ili9341.set_orientation(mode);
        (ili9341, power_up_for(orient, profile))
    }

    /// The two frames that set the drawing window to the columns `x0..=x1`
    /// and the rows `y0..=y1`. The corners go out as they are given: the
    /// caller keeps them on the screen and in order.
    pub fn set_window(&self, x0: u16, y0: u16, x1: u16, y1: u16) -> (r: [Frame; 2])
        ensures
            frames_view(r@) == window_frames(x0, y0, x1, y1),
    {
        let r = [
            Frame::words2(Command::ColumnAddressSet, x0, x1),
            Frame::words2(Command::PageAddressSet, y0, y1),
        ];
        assert(frames_view(r@) =~= window_frames(x0, y0, x1, y1));
        r
    }

    /// Draws a rectangle given by its top left corner (`x0`, `y0`) and its
    /// bottom right corner (`x1`, `y1`), both included, from a source of
    /// RGB565 values that is handed through untouched, so that it can
    /// produce the pixels one by one while they are sent.
    pub fn draw_raw_iter<I>(
        &self,
        x0: u16,
        y0: u16,
        x1: u16,
        y1: u16,
        data: I,
    ) -> (r: Draw<I>)
        ensures
            r.is_draw(x0, y0, x1, y1, data),
    {
        Draw { window: self.set_window(x0, y0, x1, y1), write: Frame::bare(Command::MemoryWrite), pixels: data }
    }

    /// Draws a rectangle given by its top left corner (`x0`, `y0`) and its
    /// bottom right corner (`x1`, `y1`), both included, from a buffer of
    /// RGB565 values.
    pub fn draw_raw_slice<'a>(&self, x0: u16, y0: u16, x1: u16, y1: u16, data: &'a [u16]) -> (r: Draw<
        &'a [u16],
    >)
        ensures
            r.is_draw(x0, y0, x1, y1, data),
    {
        Draw { window: self.set_window(x0, y0, x1, y1), write: Frame::bare(Command::MemoryWrite), pixels: data }
    }

    /// Changes the orientation of the screen: returns the frame that turns
    /// the panel, and exchanges width and height if the new orientation is
    /// landscape and the old one was not, or the other way round.
    ///
    /// The driver is turned at once. A caller that wants it to stay as it
    /// was when the frame cannot be sent turns a copy and keeps the copy
    /// once the frame is out.
    pub fn set_orientation<MODE: Mode>(&mut self, mode: MODE) -> (r: Frame)
        ensures
            r@ == frame_of(Command::MemoryAccessControl, seq![mode.register()]),
            final(self)@ == old(self)@.turned(mode.landscape()),
    {
        proof {
            use_type_invariant(&*self);
        }
        let frame = Frame::byte(Command::MemoryAccessControl, mode.mode());
        let landscape = mode.is_landscape();
        if self.landscape != landscape {
            let width = self.width;
            self.width = self.height;
            self.height = width;
        }
        self.landscape = landscape;
        frame
    }

    /// Sets up hardware scrolling with `fixed_top_lines` rows at the top
    /// and `fixed_bottom_lines` rows at the bottom that stay in place, the
    /// rows counted along the long side of the panel as the screen is
    /// turned now. Returns the frame that defines the scroll area and the
    /// scroller for it.
    ///
    /// The fixed rows must fit on the panel.
    pub fn configure_vertical_scroll(&self, fixed_top_lines: u16, fixed_bottom_lines: u16) -> (r: (
        Frame,
        Scroller,
    ))
        requires
            fixed_top_lines + fixed_bottom_lines <= self@.long_side(),
        ensures
            r.0@ == frame_of(
                Command::VerticalScrollDefine,
                be_bytes(fixed_top_lines) + be_bytes(
                    (self@.long_side() - fixed_top_lines - fixed_bottom_lines) as u16,
                ) + be_bytes(fixed_bottom_lines),
            ),
            r.1@ == (ScrollerView {
                top_offset: fixed_top_lines as nat,
                fixed_top_lines: fixed_top_lines as nat,
                fixed_bottom_lines: fixed_bottom_lines as nat,
                height: self@.long_side(),
            }),
    {
        proof {
            use_type_invariant(self);
        }
        let height: u16 = self.long_side() as u16;
        let scroll_lines: u16 = height - fixed_top_lines - fixed_bottom_lines;
        (
            Frame::words3(Command::VerticalScrollDefine, fixed_top_lines, scroll_lines, fixed_bottom_lines),
            Scroller::new(fixed_top_lines, fixed_bottom_lines, height),
        )
    }

    /// Scrolls the picture up by `num_lines` rows: moves the scroller on
    /// and returns the frame that tells the panel its new offset.
    ///
    /// The offset must not leave the range of 16 bits before it wraps.
    pub fn scroll_vertically(&self, scroller: &mut Scroller, num_lines: u16) -> (r: Frame)
        requires
            old(scroller)@.top_offset + num_lines <= u16::MAX,
        ensures
            final(scroller)@ == old(scroller)@.scrolled(num_lines as nat),
            r@ == frame_of(Command::VerticalScrollAddr, be_bytes(final(scroller)@.top_offset as u16)),
    {
        let top_offset = scroller.advance(num_lines);
        Frame::word(Command::VerticalScrollAddr, top_offset)
    }

    /// The number of rows along the long side of the panel, which is the
    /// side along which the panel scrolls. It does not change with the
    /// orientation.
    pub fn long_side(&self) -> (r: usize)
        ensures
            r == self@.long_side(),
            r <= u16::MAX,
    {
        proof {
            use_type_invariant(self);
        }
        if self.landscape {
            self.width
        } else {
            self.height
        }
    }

    /// The current screen width. It changes with the orientation.
    pub fn width(&self) -> (r: usize)
        ensures
            r == self@.width,
            r <= u16::MAX,
    {
        proof {
            use_type_invariant(self);
        }
        self.width
    }

    /// The current screen height. It changes with the orientation.
    pub fn height(&self) -> (r: usize)
        ensures
            r == self@.height,
            r <= u16::MAX,
    {
        proof {
            use_type_invariant(self);
        }
        self.height
    }
}

/// However often and in whatever order the screen is turned, its size
/// depends only on the orientation set last: the native size if that is a
/// portrait one (or none was set), the native size with width and height
/// exchanged if it is a landscape one.
pub proof fn lemma_size_follows_last_turn(width: nat, height: nat, turns: Seq<bool>)
    ensures
        Layout::native(width, height).turned_all(turns) == Layout::native(width, height).turned(
            turns.len() > 0 && turns.last(),
        ),
    decreases turns.len(),
{
    if turns.len() > 0 {
        lemma_size_follows_last_turn(width, height, turns.drop_last());
    }
}

/// Setting an orientation of the kind that is already set changes nothing,
/// and setting one of the other kind exchanges width and height.
pub proof fn lemma_turn_swaps_on_change(layout: Layout, landscape: bool)
    ensures
        layout.landscape == landscape ==> layout.turned(landscape) == layout,
        layout.landscape != landscape ==> layout.turned(landscape) == (Layout {
            width: layout.height,
            height: layout.width,
            landscape,
        }),
        layout.turned(landscape).turned(landscape) == layout.turned(landscape),
{
}

} // verus!
