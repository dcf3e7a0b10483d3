//! Batching of single pixels into runs.
//!
//! A drawing surface hands over pixels one by one, each with its own
//! coordinates, in any order and possibly off the screen. Setting a window
//! for each of them costs two address frames per pixel. The batcher here
//! joins pixels that follow each other on one row into runs of up to
//! [`RUN_CAPACITY`] pixels, each of which is one window write.

use vstd::prelude::*;

verus! {

/// The largest number of pixels in one run.
pub const RUN_CAPACITY: usize = 32;

/// One pixel of a drawing: its column, its row and its RGB565 value.
#[derive(Clone, Copy, Debug)]
pub struct Pixel {
    pub x: i32,
    pub y: i32,
    pub color: u16,
}

/// Whether `p` lies on a screen of `width` x `height` pixels.
pub open spec fn on_screen(width: nat, height: nat, p: Pixel) -> bool {
    0 <= p.x < width && 0 <= p.y < height
}

/// A run as plain numbers: the pixels `colors`, from left to right, on row
/// `y`, the first of them in column `x`.
pub ghost struct RunView {
    pub x: int,
    pub y: int,
    pub colors: Seq<u16>,
}

impl RunView {
    /// The run that holds `p` alone.
    pub open spec fn single(p: Pixel) -> RunView {
        RunView { x: p.x as int, y: p.y as int, colors: seq![p.color] }
    }

    /// Whether `p` continues this run: it is the right neighbour of the
    /// run's last pixel, and the run has room for it.
    pub open spec fn takes(self, p: Pixel) -> bool {
        p.y == self.y && p.x == self.x + self.colors.len() && self.colors.len() < RUN_CAPACITY
    }

    /// This run with `p` added at its right end.
    pub open spec fn with(self, p: Pixel) -> RunView {
        RunView { colors: self.colors.push(p.color), ..self }
    }

    /// The pixels of the run, from left to right.
    pub open spec fn pixels(self) -> Seq<Pixel> {
        Seq::new(
            self.colors.len(),
            |i: int| Pixel { x: (self.x + i) as i32, y: self.y as i32, color: self.colors[i] },
        )
    }

    /// Whether the run is a window write on a screen of `width` x `height`
    /// pixels: it holds between one and `RUN_CAPACITY` pixels, all of them
    /// on the screen.
    pub open spec fn fits(self, width: nat, height: nat) -> bool {
        &&& 1 <= self.colors.len() <= RUN_CAPACITY
        &&& 0 <= self.x
        &&& self.x + self.colors.len() <= width
        &&& 0 <= self.y < height
    }
}

/// The run that `p` pushes out of the batcher: the pending one, if `p` is
/// on the screen and does not continue it.
pub open spec fn flushed_by(width: nat, height: nat, pending: Option<RunView>, p: Pixel) -> Option<
    RunView,
> {
    match pending {
        Some(run) if on_screen(width, height, p) && !run.takes(p) => Some(run),
        _ => None,
    }
}

/// The run that is pending once `p` has been pushed: unchanged if `p` is
/// off the screen, longer by `p` if `p` continues it, else `p` alone.
pub open spec fn pending_after(width: nat, height: nat, pending: Option<RunView>, p: Pixel) -> Option<
    RunView,
> {
    if !on_screen(width, height, p) {
        pending
    } else {
        match pending {
            Some(run) if run.takes(p) => Some(run.with(p)),
            _ => Some(RunView::single(p)),
        }
    }
}

/// What the batcher has made of a stream so far: the runs that it has
/// flushed, in order, and the run that it still holds.
pub ghost struct Batch {
    pub done: Seq<RunView>,
    pub pending: Option<RunView>,
}

impl Batch {
    /// The batch after `p`.
    pub open spec fn push(self, width: nat, height: nat, p: Pixel) -> Batch {
        Batch {
            done: match flushed_by(width, height, self.pending, p) {
                Some(run) => self.done.push(run),
                None => self.done,
            },
            pending: pending_after(width, height, self.pending, p),
        }
    }

    /// All runs of the batch once the stream has ended and the pending run
    /// is flushed too.
    pub open spec fn finish(self) -> Seq<RunView> {
        match self.pending {
            Some(run) => self.done.push(run),
            None => self.done,
        }
    }
}

/// The batch that a stream of pixels leaves on a screen of `width` x
/// `height` pixels.
pub open spec fn batch(width: nat, height: nat, pixels: Seq<Pixel>) -> Batch
    decreases pixels.len(),
{
    if pixels.len() == 0 {
        Batch { done: Seq::empty(), pending: None }
    } else {
        batch(width, height, pixels.drop_last()).push(width, height, pixels.last())
    }
}

/// The runs, in order, into which a stream of pixels is batched on a screen
/// of `width` x `height` pixels.
pub open spec fn runs_of(width: nat, height: nat, pixels: Seq<Pixel>) -> Seq<RunView> {
    batch(width, height, pixels).finish()
}

/// The pixels of a list of runs, run after run.
pub open spec fn pixels_of(runs: Seq<RunView>) -> Seq<Pixel>
    decreases runs.len(),
{
    if runs.len() == 0 {
        Seq::empty()
    } else {
        pixels_of(runs.drop_last()) + runs.last().pixels()
    }
}

/// A run of pixels on one row, ready to be drawn as one window write.
#[derive(Clone, Copy, Debug)]
pub struct Run {
    x: u16,
    y: u16,
    colors: [u16; RUN_CAPACITY],
    len: usize,
}

impl View for Run {
    type V = RunView;

    closed spec fn view(&self) -> RunView {
        RunView { x: self.x as int, y: self.y as int, colors: self.colors@.subrange(0, self.len as int) }
    }
}

impl Run {
    #[verifier::type_invariant]
    spec fn well_formed(&self) -> bool {
        1 <= self.len <= RUN_CAPACITY && self.x + self.len - 1 <= u16::MAX
    }

    /// The column of the first pixel.
    pub fn x0(&self) -> (r: u16)
        ensures
            r == self@.x,
    {
        self.x
    }

    /// The column of the last pixel.
    pub fn x1(&self) -> (r: u16)
        ensures
            r == self@.x + self@.colors.len() - 1,
            1 <= self@.colors.len() <= RUN_CAPACITY,
    {
        proof {
            use_type_invariant(self);
        }
        self.x + (self.len - 1) as u16
    }

    /// The row of the run.
    pub fn y(&self) -> (r: u16)
        ensures
            r == self@.y,
    {
        self.y
    }

    /// The RGB565 values of the pixels, from left to right.
    pub fn colors(&self) -> (r: &[u16])
        ensures
            r@ == self@.colors,
            1 <= r@.len() <= RUN_CAPACITY,
    {
        proof {
            use_type_invariant(self);
        }
        vstd::slice::slice_subrange(self.colors.as_slice(), 0, self.len)
    }
}

/// The view of a run that may not be there.
pub open spec fn run_view(run: Option<Run>) -> Option<RunView> {
    match run {
        Some(r) => Some(r@),
        None => None,
    }
}

/// The views of a list of runs.
pub open spec fn runs_view(runs: Seq<Run>) -> Seq<RunView> {
    runs.map_values(|r: Run| r@)
}

/// The state of a batcher as plain numbers.
pub ghost struct BatcherView {
    /// The width of the screen.
    pub width: nat,
    /// The height of the screen.
    pub height: nat,
    /// The run that is being collected, if any.
    pub pending: Option<RunView>,
}

/// Collects the pixels of a stream into runs, one pixel at a time.
///
/// [`RunBatcher::push`] takes each pixel of the stream and
/// [`RunBatcher::finish`] ends it. Each hands back a run when one is
/// complete; the runs handed back, in order, are the window writes that
/// draw the stream.
#[derive(Clone, Copy, Debug)]
pub struct RunBatcher {
    width: usize,
    height: usize,
    x: u16,
    y: u16,
    colors: [u16; RUN_CAPACITY],
    len: usize,
}

impl View for RunBatcher {
    type V = BatcherView;

    closed spec fn view(&self) -> BatcherView {
        BatcherView {
            width: self.width as nat,
            height: self.height as nat,
            pending: if self.len == 0 {
                None
            } else {
                Some(
                    RunView {
                        x: self.x as int,
                        y: self.y as int,
                        colors: self.colors@.subrange(0, self.len as int),
                    },
                )
            },
        }
    }
}

impl RunBatcher {
    #[verifier::type_invariant]
    spec fn well_formed(&self) -> bool {
        &&& self.width <= u16::MAX
        &&& self.height <= u16::MAX
        &&& self.len <= RUN_CAPACITY
        &&& self.len > 0 ==> self.x + self.len <= self.width && self.y < self.height
    }

    /// A batcher for a screen of `width` x `height` pixels, with no run
    /// pending.
    pub(crate) fn new(width: usize, height: usize) -> (r: RunBatcher)
        requires
            width <= u16::MAX,
            height <= u16::MAX,
        ensures
            r@ == (BatcherView { width: width as nat, height: height as nat, pending: None }),
    {
        RunBatcher { width, height, x: 0, y: 0, colors: [0u16; RUN_CAPACITY], len: 0 }
    }

    /// Takes the next pixel of the stream.
    ///
    /// A pixel off the screen is dropped. A pixel that is the right
    /// neighbour of the last one joins the pending run while that has room.
    /// Any other pixel starts a run of its own, and the run that was
    /// pending is handed back.
    pub fn push(&mut self, pixel: Pixel) -> (r: Option<Run>)
        ensures
            final(self)@.width == old(self)@.width,
            final(self)@.height == old(self)@.height,
            final(self)@.pending == pending_after(
                old(self)@.width,
                old(self)@.height,
                old(self)@.pending,
                pixel,
            ),
            run_view(r) == flushed_by(old(self)@.width, old(self)@.height, old(self)@.pending, pixel),
            !on_screen(old(self)@.width, old(self)@.height, pixel) ==> r is None && *final(self) == *old(
                self,
            ),
    {
        proof {
            use_type_invariant(&*self);
        }
        if pixel.x < 0 || pixel.y < 0 || pixel.x as usize >= self.width || pixel.y as usize
            >= self.height {
            return None;
        }
        let x: u16 = pixel.x as u16;
        let y: u16 = pixel.y as u16;
        if self.len > 0 && self.len < RUN_CAPACITY && y == self.y && x as usize == self.x as usize
            + self.len {
            let ghost before = self.colors@.subrange(0, self.len as int);
            let mut colors = self.colors;
            colors[self.len] = pixel.color;
            *self = RunBatcher { colors, len: self.len + 1, ..*self };
            assert(self.colors@.subrange(0, self.len as int) =~= before.push(pixel.color));
            None
        } else {
            let flushed = if self.len > 0 {
                Some(Run { x: self.x, y: self.y, colors: self.colors, len: self.len })
            } else {
                None
            };
            let mut colors = [0u16; RUN_CAPACITY];
            colors[0] = pixel.color;
            *self = RunBatcher { x, y, colors, len: 1, ..*self };
            assert(self.colors@.subrange(0, 1) =~= seq![pixel.color]);
            flushed
        }
    }

    /// Ends the stream: hands back the run that is pending, if there is
    /// one, and leaves the batcher ready for another stream.
    pub fn finish(&mut self) -> (r: Option<Run>)
        ensures
            run_view(r) == old(self)@.pending,
            final(self)@ == (BatcherView { pending: None, ..old(self)@ }),
    {
        proof {
            use_type_invariant(&*self);
        }
        let flushed = if self.len > 0 {
            Some(Run { x: self.x, y: self.y, colors: self.colors, len: self.len })
        } else {
            None
        };
        *self = RunBatcher { len: 0, ..*self };
        flushed
    }
}

/// The pixels of a stream that lie on a screen of `width` x `height`
/// pixels, in the order of the stream.
pub open spec fn visible(width: nat, height: nat, pixels: Seq<Pixel>) -> Seq<Pixel> {
    pixels.filter(|p: Pixel| on_screen(width, height, p))
}

/// Whether `next` could have been joined to `run`: it starts where `run`
/// ends, and `run` is not full.
pub open spec fn joinable(run: RunView, next: RunView) -> bool {
    run.colors.len() < RUN_CAPACITY && next.y == run.y && next.x == run.x + run.colors.len()
}

/// Whether a list of runs is as short as batching allows: every run fits
/// on the screen, and no run could have been joined to the one before it.
pub open spec fn tiled(width: nat, height: nat, runs: Seq<RunView>) -> bool {
    &&& forall|i: int| 0 <= i < runs.len() ==> (#[trigger] runs[i]).fits(width, height)
    &&& forall|i: int, j: int|
        0 <= i && j == i + 1 && j < runs.len() ==> !joinable(#[trigger] runs[i], #[trigger] runs[j])
}

/// The pixels of a list of runs with one more run are those of the list,
/// then those of the run.
pub proof fn lemma_pixels_of_push(runs: Seq<RunView>, run: RunView)
    ensures
        pixels_of(runs.push(run)) == pixels_of(runs) + run.pixels(),
{
    assert(runs.push(run).drop_last() =~= runs);
}

/// Batching neither loses, adds, changes nor reorders a pixel: the runs of a
/// stream, laid end to end, are the pixels of the stream that lie on the
/// screen.
pub proof fn lemma_runs_keep_pixels(width: nat, height: nat, pixels: Seq<Pixel>)
    ensures
        pixels_of(runs_of(width, height, pixels)) == visible(width, height, pixels),
    decreases pixels.len(),
{
    reveal(Seq::filter);
    if pixels.len() > 0 {
        let rest = pixels.drop_last();
        let p = pixels.last();
        let before = batch(width, height, rest);
        lemma_runs_keep_pixels(width, height, rest);
        if on_screen(width, height, p) {
            match before.pending {
                Some(run) => {
                    lemma_pixels_of_push(before.done, run);
                    if run.takes(p) {
                        lemma_pixels_of_push(before.done, run.with(p));
                        assert(run.with(p).pixels() =~= run.pixels().push(p));
                        assert(pixels_of(before.done) + run.pixels().push(p) =~= (pixels_of(before.done)
                            + run.pixels()).push(p));
                    } else {
                        lemma_pixels_of_push(before.done.push(run), RunView::single(p));
                        assert(RunView::single(p).pixels() =~= seq![p]);
                        assert(pixels_of(before.done.push(run)) + seq![p] =~= pixels_of(
                            before.done.push(run),
                        ).push(p));
                    }
                },
                None => {
                    lemma_pixels_of_push(before.done, RunView::single(p));
                    assert(RunView::single(p).pixels() =~= seq![p]);
                    assert(pixels_of(before.done) + seq![p] =~= pixels_of(before.done).push(p));
                },
            }
        }
    }
}

/// The runs of a stream are as few as batching allows: each holds between
/// one and `RUN_CAPACITY` pixels of one row of the screen, and each starts
/// where the one before it could not go on, because that one was full, or
/// because the row changed or a column was skipped.
pub proof fn lemma_runs_are_tiled(width: nat, height: nat, pixels: Seq<Pixel>)
    ensures
        tiled(width, height, runs_of(width, height, pixels)),
        batch(width, height, pixels).pending is None ==> runs_of(width, height, pixels).len() == 0,
    decreases pixels.len(),
{
    if pixels.len() > 0 {
        let rest = pixels.drop_last();
        let p = pixels.last();
        let before = batch(width, height, rest);
        let runs = runs_of(width, height, pixels);
        lemma_runs_are_tiled(width, height, rest);
        if on_screen(width, height, p) {
            let old_runs = runs_of(width, height, rest);
            match before.pending {
                Some(run) => {
                    assert(old_runs[old_runs.len() - 1] == run);
                    if run.takes(p) {
                        assert forall|i: int| 0 <= i < runs.len() implies (#[trigger] runs[i]).fits(
                            width,
                            height,
                        ) by {
                            if i < runs.len() - 1 {
                                assert(runs[i] == old_runs[i]);
                            }
                        }
                        assert forall|i: int, j: int|
                            0 <= i && j == i + 1 && j < runs.len() implies !joinable(
                            #[trigger] runs[i],
                            #[trigger] runs[j],
                        ) by {
                            assert(runs[i] == old_runs[i]);
                            assert(!joinable(old_runs[i], old_runs[j]));
                        }
                    } else {
                        assert forall|i: int| 0 <= i < runs.len() implies (#[trigger] runs[i]).fits(
                            width,
                            height,
                        ) by {
                            if i < runs.len() - 1 {
                                assert(runs[i] == old_runs[i]);
                            }
                        }
                        assert forall|i: int, j: int|
                            0 <= i && j == i + 1 && j < runs.len() implies !joinable(
                            #[trigger] runs[i],
                            #[trigger] runs[j],
                        ) by {
                            if j < runs.len() - 1 {
                                assert(runs[i] == old_runs[i]);
                                assert(runs[j] == old_runs[j]);
                            }
                        }
                    }
                },
                None => {
                    assert(runs =~= seq![RunView::single(p)]);
                },
            }
        }
    }
}

/// Pixels off the screen leave no trace: a stream is batched into the same
/// runs as the stream of its pixels that lie on the screen.
pub proof fn lemma_off_screen_pixels_vanish(width: nat, height: nat, pixels: Seq<Pixel>)
    ensures
        batch(width, height, pixels) == batch(width, height, visible(width, height, pixels)),
        runs_of(width, height, pixels) == runs_of(width, height, visible(width, height, pixels)),
    decreases pixels.len(),
{
    reveal(Seq::filter);
    if pixels.len() > 0 {
        let rest = pixels.drop_last();
        let p = pixels.last();
        lemma_off_screen_pixels_vanish(width, height, rest);
        if on_screen(width, height, p) {
            let kept = visible(width, height, rest);
            assert(visible(width, height, pixels) == kept.push(p));
            assert(kept.push(p).drop_last() =~= kept);
        }
    }
}

} // verus!
