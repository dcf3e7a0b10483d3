//! The power-up sequence of the panel.
//!
//! The controller has no readable status, so bringing it up is a fixed list
//! of steps: the caller performs them in order and stops at the first one
//! that fails.

use vstd::prelude::*;
use crate::command::{frame_of, frames_view, Command, Frame, FrameView, PIXEL_FORMAT_RGB565};

verus! {

/// How long the reset line is held low, in milliseconds.
pub const RESET_PULSE_MS: u16 = 1;

/// How long the panel needs after a hardware reset or after leaving sleep
/// before it takes the next command, in milliseconds.
pub const SETTLE_MS: u16 = 5;

/// How long the panel needs to reload its registers after a software
/// reset, in milliseconds.
pub const SOFTWARE_RESET_MS: u16 = 120;

/// The number of steps in the power-up sequence of a panel that needs no
/// tuning.
pub const INIT_STEPS: usize = 11;

/// The number of steps of the power-up sequence that come before the
/// frames of a full tuning: the two resets and their waits.
pub const RESET_STEPS: usize = 6;

/// How a panel is brought up.
///
/// Some panels do not work with the power, timing and gamma registers as a
/// reset leaves them. The values that such a panel needs come from its
/// maker, so a full tuning is a list of frames that the caller supplies.
#[derive(Clone, Copy, Debug)]
pub enum PanelProfile<'a> {
    /// The panel works with the register values it has after a reset.
    Standard,
    /// The panel needs these frames after its reset, in this order.
    FullTuning(&'a [Frame]),
}

impl<'a> PanelProfile<'a> {
    /// The frames that the profile adds to the power-up sequence.
    pub open spec fn tuning(self) -> Seq<FrameView> {
        match self {
            PanelProfile::Standard => Seq::empty(),
            PanelProfile::FullTuning(frames) => frames_view(frames@),
        }
    }
}

/// One thing to do to the panel while bringing it up.
#[derive(Clone, Copy, Debug)]
pub enum Step {
    /// Drive the reset line low.
    ResetLow,
    /// Drive the reset line high.
    ResetHigh,
    /// Wait at least this many milliseconds.
    DelayMs(u16),
    /// Send this frame over the bus.
    Send(Frame),
}

/// A step, with the frame it sends seen as what goes over the bus.
pub ghost enum StepView {
    ResetLow,
    ResetHigh,
    DelayMs(u16),
    Send(FrameView),
}

impl View for Step {
    type V = StepView;

    open spec fn view(&self) -> StepView {
        match *self {
            Step::ResetLow => StepView::ResetLow,
            Step::ResetHigh => StepView::ResetHigh,
            Step::DelayMs(ms) => StepView::DelayMs(ms),
            Step::Send(frame) => StepView::Send(frame@),
        }
    }
}

/// The power-up sequence for a panel whose memory access control register
/// is to hold `register`: a hardware reset, a software reset, the
/// orientation, the pixel format, then sleep-out and display-on.
pub open spec fn init_sequence(register: u8) -> Seq<StepView> {
    seq![
        StepView::ResetLow,
        StepView::DelayMs(RESET_PULSE_MS),
        StepView::ResetHigh,
        StepView::DelayMs(SETTLE_MS),
        StepView::Send(frame_of(Command::SoftwareReset, Seq::empty())),
        StepView::DelayMs(SOFTWARE_RESET_MS),
        StepView::Send(frame_of(Command::MemoryAccessControl, seq![register])),
        StepView::Send(frame_of(Command::PixelFormatSet, seq![PIXEL_FORMAT_RGB565])),
        StepView::Send(frame_of(Command::SleepOut, Seq::empty())),
        StepView::DelayMs(SETTLE_MS),
        StepView::Send(frame_of(Command::DisplayOn, Seq::empty())),
    ]
}

/// The power-up sequence with the frames of a tuning in it: they go out
/// once the panel has come out of its software reset, before anything else
/// is set.
pub open spec fn init_sequence_for(register: u8, tuning: Seq<FrameView>) -> Seq<StepView> {
    init_sequence(register).take(RESET_STEPS as int) + tuning.map_values(
        |f: FrameView| StepView::Send(f),
    ) + init_sequence(register).skip(RESET_STEPS as int)
}

/// What a list of steps does, in order.
pub open spec fn steps_view(steps: Seq<Step>) -> Seq<StepView> {
    steps.map_values(|s: Step| s@)
}

/// Lays out the power-up sequence around the frame that sets the
/// orientation.
pub(crate) fn power_up(orient: Frame) -> (r: [Step; INIT_STEPS])
    requires
        orient@ == frame_of(Command::MemoryAccessControl, seq![orient@.args[0]]),
    ensures
        steps_view(r@) == init_sequence(orient@.args[0]),
{
    let r = [
        Step::ResetLow,
        Step::DelayMs(RESET_PULSE_MS),
        Step::ResetHigh,
        Step::DelayMs(SETTLE_MS),
        Step::Send(Frame::bare(Command::SoftwareReset)),
        Step::DelayMs(SOFTWARE_RESET_MS),
        Step::Send(orient),
        Step::Send(Frame::byte(Command::PixelFormatSet, PIXEL_FORMAT_RGB565)),
        Step::Send(Frame::bare(Command::SleepOut)),
        Step::DelayMs(SETTLE_MS),
        Step::Send(Frame::bare(Command::DisplayOn)),
    ];
    assert(steps_view(r@) =~= init_sequence(orient@.args[0]));
    r
}

/// Lays out the power-up sequence of a profile around the frame that sets
/// the orientation.
pub(crate) fn power_up_for(orient: Frame, profile: PanelProfile<'_>) -> (r: Vec<Step>)
    requires
        orient@ == frame_of(Command::MemoryAccessControl, seq![orient@.args[0]]),
    ensures
        steps_view(r@) == init_sequence_for(orient@.args[0], profile.tuning()),
{
    let standard = power_up(orient);
    let ghost register = orient@.args[0];
    let ghost head = init_sequence(register).take(RESET_STEPS as int);
    let mut out: Vec<Step> = Vec::new();
    let mut i: usize = 0;
    while i < RESET_STEPS
        invariant
            i <= RESET_STEPS,
            steps_view(standard@) == init_sequence(register),
            steps_view(out@) == init_sequence(register).take(i as int),
        decreases RESET_STEPS - i,
    {
        push_step(&mut out, standard[i]);
        assert(steps_view(standard@)[i as int] == standard@[i as int]@);
        i += 1;
        assert(steps_view(out@) =~= init_sequence(register).take(i as int));
    }
    match profile {
        PanelProfile::Standard => {
            assert(steps_view(out@) =~= head + profile.tuning().map_values(
                |f: FrameView| StepView::Send(f),
            ));
        },
        PanelProfile::FullTuning(frames) => {
            let mut j: usize = 0;
            while j < frames.len()
                invariant
                    j <= frames.len(),
                    steps_view(out@) == head + frames_view(frames@.take(j as int)).map_values(
                        |f: FrameView| StepView::Send(f),
                    ),
                decreases frames.len() - j,
            {
                push_step(&mut out, Step::Send(frames[j]));
                assert(frames_view(frames@.take(j + 1)) =~= frames_view(frames@.take(j as int)).push(
                    frames@[j as int]@,
                ));
                j += 1;
                assert(steps_view(out@) =~= head + frames_view(frames@.take(j as int)).map_values(
                    |f: FrameView| StepView::Send(f),
                ));
            }
            assert(frames@.take(j as int) =~= frames@);
        },
    }
    let ghost middle = steps_view(out@);
    let mut k: usize = RESET_STEPS;
    while k < INIT_STEPS
        invariant
            RESET_STEPS <= k <= INIT_STEPS,
            steps_view(standard@) == init_sequence(register),
            steps_view(out@) == middle + init_sequence(register).subrange(RESET_STEPS as int, k as int),
        decreases INIT_STEPS - k,
    {
        push_step(&mut out, standard[k]);
        assert(steps_view(standard@)[k as int] == standard@[k as int]@);
        k += 1;
        assert(steps_view(out@) =~= middle + init_sequence(register).subrange(
            RESET_STEPS as int,
            k as int,
        ));
    }
    assert(init_sequence(register).subrange(RESET_STEPS as int, INIT_STEPS as int) =~= init_sequence(
        register,
    ).skip(RESET_STEPS as int));
    out
}

/// Appends a step to a list of steps.
fn push_step(out: &mut Vec<Step>, step: Step)
    ensures
        steps_view(final(out)@) == steps_view(old(out)@).push(step@),
{
    out.push(step);
    assert(steps_view(out@) =~= steps_view(old(out)@).push(step@));
}

/// A panel that needs no tuning is brought up by the plain power-up
/// sequence.
pub proof fn lemma_standard_profile(register: u8)
    ensures
        init_sequence_for(register, PanelProfile::Standard.tuning()) == init_sequence(register),
{
    assert(init_sequence_for(register, PanelProfile::Standard.tuning()) =~= init_sequence(register));
}

} // verus!
