//! Native panel sizes.

use vstd::prelude::*;

verus! {

/// The size of a panel in its native (portrait) orientation.
pub trait DisplaySize {
    /// Width in pixels.
    const WIDTH: usize;

    /// Height in pixels.
    const HEIGHT: usize;
}

/// A panel of 240x320 pixels.
pub struct DisplaySize240x320;

impl DisplaySize for DisplaySize240x320 {
    const WIDTH: usize = 240;

    const HEIGHT: usize = 320;
}

/// A panel of 320x480 pixels.
pub struct DisplaySize320x480;

impl DisplaySize for DisplaySize320x480 {
    const WIDTH: usize = 320;

    const HEIGHT: usize = 480;
}

/// The sizes of the two panels above, for code in other modules.
pub proof fn lemma_panel_sizes()
    ensures
        DisplaySize240x320::WIDTH == 240,
        DisplaySize240x320::HEIGHT == 320,
        DisplaySize320x480::WIDTH == 320,
        DisplaySize320x480::HEIGHT == 480,
{
}

} // verus!
