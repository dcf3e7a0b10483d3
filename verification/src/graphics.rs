//! What a drawing surface needs of the controller: the screen's bounds,
//! single pixels batched into runs, and filled areas clipped to the screen.

use vstd::prelude::*;
use embedded_graphics_core::geometry::{Point, Size};
use embedded_graphics_core::primitives::Rectangle;
use crate::batch::{batch, runs_of, runs_view, Pixel, Run, RunBatcher, BatcherView};
use crate::command::{frame_of, frames_view, Command, Frame};
use crate::controller::{window_frames, Draw, Ili9341, Layout};

verus! {

/// A rectangle of pixels: its top left corner and its size. It may lie
/// partly or wholly off the screen.
#[derive(Clone, Copy, Debug, PartialEq, Eq, Structural)]
pub struct Area {
    /// The column of the top left corner.
    pub x: i32,
    /// The row of the top left corner.
    pub y: i32,
    /// The number of columns.
    pub width: u32,
    /// The number of rows.
    pub height: u32,
}

impl Area {
    /// The area without a pixel, at the origin.
    pub open spec fn zero() -> Area {
        Area { x: 0, y: 0, width: 0, height: 0 }
    }

    /// Whether the area has no pixel.
    pub open spec fn is_empty(self) -> bool {
        self.width == 0 || self.height == 0
    }

    /// Whether the pixel at (`x`, `y`) lies in the area.
    pub open spec fn holds(self, x: int, y: int) -> bool {
        self.x <= x < self.x + self.width && self.y <= y < self.y + self.height
    }

    /// Whether the corners of the area can be computed in 32 bits.
    pub open spec fn bounded(self) -> bool {
        &&& self.width <= i32::MAX
        &&& self.height <= i32::MAX
        &&& self.x + self.width <= i32::MAX
        &&& self.y + self.height <= i32::MAX
    }

    /// The bottom right corner of the area, if the area has a pixel.
    pub open spec fn corner(self) -> Option<(i32, i32)> {
        if self.is_empty() {
            None
        } else {
            Some(((self.x + self.width - 1) as i32, (self.y + self.height - 1) as i32))
        }
    }

    /// The pixels that two areas with pixels have in common: the area from
    /// the larger of the left and of the top edges to the smaller of the
    /// right and of the bottom edges, or `zero()` if the two do not meet.
    pub open spec fn meet(self, other: Area) -> Area {
        let left = if self.x >= other.x { self.x as int } else { other.x as int };
        let top = if self.y >= other.y { self.y as int } else { other.y as int };
        let right = if self.x + self.width <= other.x + other.width {
            self.x + self.width
        } else {
            other.x + other.width
        };
        let bottom = if self.y + self.height <= other.y + other.height {
            self.y + self.height
        } else {
            other.y + other.height
        };
        if left < right && top < bottom {
            Area {
                x: left as i32,
                y: top as i32,
                width: (right - left) as u32,
                height: (bottom - top) as u32,
            }
        } else {
            Area::zero()
        }
    }

    /// Whether the pixel at (`x`, `y`) lies in the area.
    pub fn contains(&self, x: i32, y: i32) -> (r: bool)
        requires
            self.bounded(),
        ensures
            r == self.holds(x as int, y as int),
    {
        rect_contains(self, x, y)
    }
}

/// `Rectangle::intersection` of embedded-graphics-core, on two rectangles
/// that both have pixels and whose corners fit in 32 bits: the rectangle
/// between the inner edges of the two where they overlap, else the zero
/// rectangle at the origin.
#[verifier::external_body]
fn rect_intersection(a: &Area, b: &Area) -> (r: Area)
    requires
        a.bounded(),
        b.bounded(),
        !a.is_empty(),
        !b.is_empty(),
    ensures
        r == a.meet(*b),
{
    let first = Rectangle::new(Point::new(a.x, a.y), Size::new(a.width, a.height));
    let second = Rectangle::new(Point::new(b.x, b.y), Size::new(b.width, b.height));
    let r = first.intersection(&second);
    Area { x: r.top_left.x, y: r.top_left.y, width: r.size.width, height: r.size.height }
}

/// `Rectangle::bottom_right` of embedded-graphics-core, on a rectangle
/// whose corners fit in 32 bits: the last column and row of the rectangle,
/// or nothing if it has no pixel.
#[verifier::external_body]
fn rect_bottom_right(a: &Area) -> (r: Option<(i32, i32)>)
    requires
        a.bounded(),
    ensures
        r == a.corner(),
{
    match Rectangle::new(Point::new(a.x, a.y), Size::new(a.width, a.height)).bottom_right() {
        Some(p) => Some((p.x, p.y)),
        None => None,
    }
}

/// `Rectangle::contains` of embedded-graphics-core, on a rectangle whose
/// corners fit in 32 bits: whether the point lies between the rectangle's
/// first and last column and between its first and last row.
#[verifier::external_body]
fn rect_contains(a: &Area, x: i32, y: i32) -> (r: bool)
    requires
        a.bounded(),
    ensures
        r == a.holds(x as int, y as int),
{
    Rectangle::new(Point::new(a.x, a.y), Size::new(a.width, a.height)).contains(Point::new(x, y))
}

/// A filled area on its way to the panel, clipped to the screen.
///
/// The `window` frames go out first, then `write`, then the colour of every
/// pixel of the area that [`Fill::keeps`] accepts, row by row.
#[derive(Clone, Copy, Debug)]
pub struct Fill {
    window: [Frame; 2],
    write: Frame,
    drawable: Area,
    whole: bool,
}

impl Fill {
    #[verifier::type_invariant]
    spec fn well_formed(&self) -> bool {
        self.drawable.bounded() && !self.drawable.is_empty()
    }

    /// The part of the area that is on the screen.
    pub closed spec fn clip(&self) -> Area {
        self.drawable
    }

    /// The frames that set the drawing window.
    pub closed spec fn frames(&self) -> Seq<Frame> {
        self.window@
    }

    /// The frame that starts the transfer of pixel data.
    pub closed spec fn start(&self) -> Frame {
        self.write
    }

    /// Whether no pixel of the area is off the screen.
    pub closed spec fn complete(&self) -> bool {
        self.whole
    }

    /// The frames that set the drawing window: columns, then rows.
    pub fn window(&self) -> (r: [Frame; 2])
        ensures
            r@ == self.frames(),
    {
        self.window
    }

    /// The frame that starts the transfer of pixel data.
    pub fn write(&self) -> (r: Frame)
        ensures
            r == self.start(),
    {
        self.write
    }

    /// The part of the area that is on the screen. It has at least one
    /// pixel.
    pub fn drawable(&self) -> (r: Area)
        ensures
            r == self.clip(),
            r.bounded(),
            !r.is_empty(),
    {
        proof {
            use_type_invariant(self);
        }
        self.drawable
    }

    /// Whether no pixel of the area is off the screen, so that every colour
    /// of the fill is sent.
    pub fn is_whole(&self) -> (r: bool)
        ensures
            r == self.complete(),
    {
        self.whole
    }

    /// Whether the colour of the area's pixel at (`x`, `y`) is sent: that
    /// is, whether the pixel is on the screen.
    pub fn keeps(&self, x: i32, y: i32) -> (r: bool)
        ensures
            r == self.clip().holds(x as int, y as int),
    {
        proof {
            use_type_invariant(self);
        }
        self.drawable.contains(x, y)
    }
}

/// The screen of a layout as an area: from the origin, as wide and as high
/// as the screen is.
pub open spec fn screen_of(layout: Layout) -> Area {
    Area { x: 0, y: 0, width: layout.width as u32, height: layout.height as u32 }
}

impl Ili9341 {
    /// The screen as an area, as it is turned now.
    pub open spec fn screen(&self) -> Area {
        screen_of(self@)
    }

    /// The size of the screen: its width, then its height.
    pub fn size(&self) -> (r: (u32, u32))
        ensures
            r.0 == self@.width,
            r.1 == self@.height,
            r.0 <= u16::MAX,
            r.1 <= u16::MAX,
    {
        (self.width() as u32, self.height() as u32)
    }

    /// The screen as an area.
    pub fn bounding_box(&self) -> (r: Area)
        ensures
            r == self.screen(),
            r.bounded(),
    {
        let (width, height) = self.size();
        Area { x: 0, y: 0, width, height }
    }

    /// A batcher for this screen, with no run pending.
    pub fn run_batcher(&self) -> (r: RunBatcher)
        ensures
            r@ == (BatcherView { width: self@.width, height: self@.height, pending: None }),
    {
        RunBatcher::new(self.width(), self.height())
    }

    /// Batches a list of pixels into runs: drops the pixels off the screen
    /// and joins those that follow each other on a row. Each run is one
    /// window write, see [`Ili9341::draw_run`].
    pub fn draw_iter(&self, pixels: &[Pixel]) -> (r: Vec<Run>)
        ensures
            runs_view(r@) == runs_of(self@.width, self@.height, pixels@),
    {
        let mut batcher = self.run_batcher();
        let mut runs: Vec<Run> = Vec::new();
        let mut i: usize = 0;
        assert(runs_view(runs@) =~= Seq::empty());
        while i < pixels.len()
            invariant
                i <= pixels.len(),
                batcher@.width == self@.width,
                batcher@.height == self@.height,
                batcher@.pending == batch(self@.width, self@.height, pixels@.take(i as int)).pending,
                runs_view(runs@) == batch(self@.width, self@.height, pixels@.take(i as int)).done,
            decreases pixels.len() - i,
        {
            let ghost before = runs@;
            assert(pixels@.take(i + 1).drop_last() =~= pixels@.take(i as int));
            if let Some(run) = batcher.push(pixels[i]) {
                runs.push(run);
                assert(runs_view(runs@) =~= runs_view(before).push(run@));
            }
            i += 1;
        }
        assert(pixels@.take(i as int) =~= pixels@);
        let ghost before = runs@;
        if let Some(run) = batcher.finish() {
            runs.push(run);
            assert(runs_view(runs@) =~= runs_view(before).push(run@));
        }
        runs
    }

    /// The window write that draws `run`: a window one row high, from the
    /// run's first column to its last.
    pub fn draw_run<'a>(&self, run: &'a Run) -> (r: Draw<&'a [u16]>)
        ensures
            r.pixels@ == run@.colors,
            r.is_draw(
                run@.x as u16,
                run@.y as u16,
                (run@.x + run@.colors.len() - 1) as u16,
                run@.y as u16,
                r.pixels,
            ),
    {
        self.draw_raw_slice(run.x0(), run.y(), run.x1(), run.y(), run.colors())
    }

    /// Clips a filled area to the screen.
    ///
    /// Returns nothing if no pixel of the area is on the screen. Else the
    /// fill's window is the part of the area that is on the screen, and the
    /// fill keeps exactly the pixels in it.
    ///
    /// The corners of the area must fit in 32 bits.
    pub fn fill_contiguous(&self, area: &Area) -> (r: Option<Fill>)
        requires
            area.bounded(),
        ensures
            r is None <==> area.is_empty() || self.screen().is_empty() || area.meet(
                self.screen(),
            ).is_empty(),
            r matches Some(fill) ==> {
                let clip = area.meet(self.screen());
                &&& fill.clip() == clip
                &&& fill.complete() == (clip == *area)
                &&& frames_view(fill.frames()) == window_frames(
                    clip.x as u16,
                    clip.y as u16,
                    (clip.x + clip.width - 1) as u16,
                    (clip.y + clip.height - 1) as u16,
                )
                &&& fill.start()@ == frame_of(Command::MemoryWrite, Seq::empty())
            },
    {
        let screen = self.bounding_box();
        if area.width == 0 || area.height == 0 || screen.width == 0 || screen.height == 0 {
            return None;
        }
        let drawable = rect_intersection(area, &screen);
        match rect_bottom_right(&drawable) {
            Some((right, bottom)) => Some(
                Fill {
                    window: self.set_window(
                        drawable.x as u16,
                        drawable.y as u16,
                        right as u16,
                        bottom as u16,
                    ),
                    write: Frame::bare(Command::MemoryWrite),
                    drawable,
                    whole: *area == drawable,
                },
            ),
            None => None,
        }
    }
}

/// Clipping a fill keeps the pixels of its area that are on the screen, and
/// no others.
pub proof fn lemma_clip_keeps_the_screen(area: Area, layout: Layout, x: int, y: int)
    requires
        area.bounded(),
        layout.width <= u16::MAX,
        layout.height <= u16::MAX,
    ensures
        area.meet(screen_of(layout)).holds(x, y) <==> area.holds(x, y) && layout.contains(x, y),
{
}

/// The pixels that two areas have in common are those that lie in both.
pub proof fn lemma_meet_is_intersection(a: Area, b: Area, x: int, y: int)
    requires
        a.bounded(),
        b.bounded(),
    ensures
        a.meet(b).holds(x, y) <==> a.holds(x, y) && b.holds(x, y),
{
}

} // verus!
