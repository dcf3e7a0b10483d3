//! The offset of the hardware scroll.

use vstd::prelude::*;

verus! {

/// The state of a scroll area, as plain numbers.
pub ghost struct ScrollerView {
    /// The panel row shown at the top of the scroll area.
    pub top_offset: nat,
    /// The rows above the scroll area, which do not move.
    pub fixed_top_lines: nat,
    /// The rows below the scroll area, which do not move.
    pub fixed_bottom_lines: nat,
    /// The rows of the panel along its long side.
    pub height: nat,
}

impl ScrollerView {
    /// The number of rows in the scroll area.
    pub open spec fn band(self) -> int {
        self.height - self.fixed_top_lines - self.fixed_bottom_lines
    }

    /// What every scroller holds: the fixed margins fit on the panel, and
    /// the offset never lies above the scroll area.
    pub open spec fn valid(self) -> bool {
        &&& self.fixed_top_lines + self.fixed_bottom_lines <= self.height
        &&& self.height <= u16::MAX
        &&& self.fixed_top_lines <= self.top_offset <= u16::MAX
    }

    /// The state after the picture has moved up by `lines` rows: the offset
    /// advances, and once it passes the last row of the scroll area it
    /// comes back in at the top, carrying over the rows by which it passed.
    pub open spec fn scrolled(self, lines: nat) -> ScrollerView {
        let advanced = self.top_offset + lines;
        let top_offset = if advanced > self.height - self.fixed_bottom_lines {
            (self.fixed_top_lines + (advanced + self.fixed_bottom_lines - self.height)) as nat
        } else {
            advanced
        };
        ScrollerView { top_offset, ..self }
    }
}

/// The scroll area of a panel and how far it is scrolled.
///
/// Only configuring the scroll area on a controller yields one, so holding
/// a `Scroller` means that the panel has been told where its scroll area
/// is.
#[derive(Debug)]
pub struct Scroller {
    top_offset: u16,
    fixed_bottom_lines: u16,
    fixed_top_lines: u16,
    height: u16,
}

impl View for Scroller {
    type V = ScrollerView;

    closed spec fn view(&self) -> ScrollerView {
        ScrollerView {
            top_offset: self.top_offset as nat,
            fixed_top_lines: self.fixed_top_lines as nat,
            fixed_bottom_lines: self.fixed_bottom_lines as nat,
            height: self.height as nat,
        }
    }
}

impl Scroller {
    #[verifier::type_invariant]
    spec fn well_formed(&self) -> bool {
        self@.valid()
    }

    /// A scroller at rest: the first row of the scroll area is at its top.
    pub(crate) fn new(fixed_top_lines: u16, fixed_bottom_lines: u16, height: u16) -> (r: Scroller)
        requires
            fixed_top_lines + fixed_bottom_lines <= height,
        ensures
            r@ == (ScrollerView {
                top_offset: fixed_top_lines as nat,
                fixed_top_lines: fixed_top_lines as nat,
                fixed_bottom_lines: fixed_bottom_lines as nat,
                height: height as nat,
            }),
    {
        Scroller { top_offset: fixed_top_lines, fixed_top_lines, fixed_bottom_lines, height }
    }

    /// Moves the offset by `num_lines` rows and returns the new offset.
    pub(crate) fn advance(&mut self, num_lines: u16) -> (r: u16)
        requires
            old(self)@.top_offset + num_lines <= u16::MAX,
        ensures
            final(self)@ == old(self)@.scrolled(num_lines as nat),
            r == final(self)@.top_offset,
    {
        proof {
            use_type_invariant(&*self);
        }
        let mut top_offset: u16 = self.top_offset + num_lines;
        if top_offset > self.height - self.fixed_bottom_lines {
            let past: u16 = top_offset - (self.height - self.fixed_bottom_lines);
            top_offset = self.fixed_top_lines + past;
        }
        self.top_offset = top_offset;
        top_offset
    }

    /// The panel row shown at the top of the scroll area.
    pub fn top_offset(&self) -> (r: u16)
        ensures
            r == self@.top_offset,
            self@.valid(),
    {
        proof {
            use_type_invariant(self);
        }
        self.top_offset
    }
}

/// A step of at most one band keeps the offset inside the scroll area, and
/// moves it by `lines` rows around the band: either straight on, or on and
/// back by the band's height.
pub proof fn lemma_scroll_wraps_once(s: ScrollerView, lines: nat)
    requires
        s.valid(),
        s.top_offset <= s.height - s.fixed_bottom_lines,
        lines <= s.band(),
    ensures
        s.fixed_top_lines <= s.scrolled(lines).top_offset <= s.height - s.fixed_bottom_lines,
        s.scrolled(lines).top_offset == s.top_offset + lines
            || s.scrolled(lines).top_offset == s.top_offset + lines - s.band(),
        s.scrolled(lines).fixed_top_lines == s.fixed_top_lines,
        s.scrolled(lines).fixed_bottom_lines == s.fixed_bottom_lines,
        s.scrolled(lines).height == s.height,
{
}

/// Scrolling never moves the offset above the scroll area, whatever the
/// step.
pub proof fn lemma_scroll_keeps_valid(s: ScrollerView, lines: nat)
    requires
        s.valid(),
        s.top_offset + lines <= u16::MAX,
    ensures
        s.scrolled(lines).valid(),
{
}

} // verus!
