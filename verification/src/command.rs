//! The controller's command set and the frames that carry commands to the
//! panel.
//!
//! A frame is one bus transaction: an opcode byte sent in command mode,
//! followed by its parameter bytes sent in data mode.

use vstd::prelude::*;

verus! {

/// The largest number of parameter bytes that a command of this controller
/// takes (the gamma correction tables).
pub const MAX_ARGS: usize = 15;

/// The parameter byte of `PixelFormatSet` that selects 16 bits per pixel
/// (RGB565) on both the MCU and the RGB interface.
pub const PIXEL_FORMAT_RGB565: u8 = 0x55;

/// The commands that the driver issues.
#[derive(Clone, Copy, Debug)]
pub enum Command {
    SoftwareReset,
    SleepOut,
    GammaSet,
    DisplayOn,
    ColumnAddressSet,
    PageAddressSet,
    MemoryWrite,
    VerticalScrollDefine,
    MemoryAccessControl,
    VerticalScrollAddr,
    PixelFormatSet,
}

impl Command {
    /// The opcode byte of the command, as the panel's datasheet gives it.
    pub open spec fn code(self) -> u8 {
        match self {
            Command::SoftwareReset => 0x01,
            Command::SleepOut => 0x11,
            Command::GammaSet => 0x26,
            Command::DisplayOn => 0x29,
            Command::ColumnAddressSet => 0x2a,
            Command::PageAddressSet => 0x2b,
            Command::MemoryWrite => 0x2c,
            Command::VerticalScrollDefine => 0x33,
            Command::MemoryAccessControl => 0x36,
            Command::VerticalScrollAddr => 0x37,
            Command::PixelFormatSet => 0x3a,
        }
    }

    /// The opcode byte of the command.
    pub fn opcode(self) -> (r: u8)
        ensures
            r == self.code(),
    {
        match self {
            Command::SoftwareReset => 0x01,
            Command::SleepOut => 0x11,
            Command::GammaSet => 0x26,
            Command::DisplayOn => 0x29,
            Command::ColumnAddressSet => 0x2a,
            Command::PageAddressSet => 0x2b,
            Command::MemoryWrite => 0x2c,
            Command::VerticalScrollDefine => 0x33,
            Command::MemoryAccessControl => 0x36,
            Command::VerticalScrollAddr => 0x37,
            Command::PixelFormatSet => 0x3a,
        }
    }
}

/// The two bytes of a 16-bit value, most significant first.
pub open spec fn be_bytes(v: u16) -> Seq<u8> {
    seq![(v / 256) as u8, (v % 256) as u8]
}

/// The bytes of a list of 16-bit words, each word most significant byte
/// first.
pub open spec fn word_bytes(words: Seq<u16>) -> Seq<u8>
    decreases words.len(),
{
    if words.len() == 0 {
        Seq::empty()
    } else {
        word_bytes(words.drop_last()) + be_bytes(words.last())
    }
}

/// What a frame puts on the bus: the opcode, then the parameter bytes in
/// order.
pub ghost struct FrameView {
    pub opcode: u8,
    pub args: Seq<u8>,
}

/// The frame of `command` with the parameter bytes `args`.
pub open spec fn frame_of(command: Command, args: Seq<u8>) -> FrameView {
    FrameView { opcode: command.code(), args }
}

/// One command with its parameter bytes, held without allocation.
#[derive(Clone, Copy, Debug)]
pub struct Frame {
    opcode: u8,
    args: [u8; MAX_ARGS],
    len: usize,
}

impl View for Frame {
    type V = FrameView;

    closed spec fn view(&self) -> FrameView {
        FrameView { opcode: self.opcode, args: self.args@.subrange(0, self.len as int) }
    }
}

impl Frame {
    #[verifier::type_invariant]
    spec fn well_formed(&self) -> bool {
        self.len <= MAX_ARGS
    }

    /// Builds the frame of a raw opcode with up to `MAX_ARGS` parameter
    /// bytes; `None` when there are more.
    pub fn new(opcode: u8, args: &[u8]) -> (r: Option<Frame>)
        ensures
            args@.len() <= MAX_ARGS ==> r is Some && r.unwrap()@ == (FrameView { opcode, args: args@ }),
            args@.len() > MAX_ARGS ==> r is None,
    {
        if args.len() > MAX_ARGS {
            None
        } else {
            Some(Frame::pack(opcode, args))
        }
    }

    /// Builds the frame of `command` with up to `MAX_ARGS` parameter bytes;
    /// `None` when there are more.
    pub fn command(command: Command, args: &[u8]) -> (r: Option<Frame>)
        ensures
            args@.len() <= MAX_ARGS ==> r is Some && r.unwrap()@ == frame_of(command, args@),
            args@.len() > MAX_ARGS ==> r is None,
    {
        Frame::new(command.opcode(), args)
    }

    pub(crate) fn pack(opcode: u8, args: &[u8]) -> (r: Frame)
        requires
            args@.len() <= MAX_ARGS,
        ensures
            r@ == (FrameView { opcode, args: args@ }),
    {
        let mut buf = [0u8; MAX_ARGS];
        let mut i: usize = 0;
        while i < args.len()
            invariant
                i <= args.len() <= MAX_ARGS,
                buf@.subrange(0, i as int) == args@.subrange(0, i as int),
            decreases args.len() - i,
        {
            buf[i] = args[i];
            i += 1;
            assert(buf@.subrange(0, i as int) =~= args@.subrange(0, i as int));
        }
        assert(args@.subrange(0, i as int) =~= args@);
        Frame { opcode, args: buf, len: args.len() }
    }

    /// The frame of a command that takes no parameters.
    pub(crate) fn bare(command: Command) -> (r: Frame)
        ensures
            r@ == frame_of(command, Seq::empty()),
    {
        let r = Frame { opcode: command.opcode(), args: [0u8; MAX_ARGS], len: 0 };
        assert(r@.args =~= Seq::<u8>::empty());
        r
    }

    /// The frame of a command with one parameter byte.
    pub(crate) fn byte(command: Command, arg: u8) -> (r: Frame)
        ensures
            r@ == frame_of(command, seq![arg]),
    {
        let mut buf = [0u8; MAX_ARGS];
        buf[0] = arg;
        let r = Frame { opcode: command.opcode(), args: buf, len: 1 };
        assert(r@.args =~= seq![arg]);
        r
    }

    /// The frame of a command with one 16-bit parameter, sent most
    /// significant byte first.
    pub(crate) fn word(command: Command, a: u16) -> (r: Frame)
        ensures
            r@ == frame_of(command, be_bytes(a)),
    {
        let mut buf = [0u8; MAX_ARGS];
        let (hi, lo) = split(a);
        buf[0] = hi;
        buf[1] = lo;
        let r = Frame { opcode: command.opcode(), args: buf, len: 2 };
        assert(r@.args =~= be_bytes(a));
        r
    }

    /// The frame of a command with two 16-bit parameters.
    pub(crate) fn words2(command: Command, a: u16, b: u16) -> (r: Frame)
        ensures
            r@ == frame_of(command, be_bytes(a) + be_bytes(b)),
    {
        let mut buf = [0u8; MAX_ARGS];
        let (ah, al) = split(a);
        let (bh, bl) = split(b);
        buf[0] = ah;
        buf[1] = al;
        buf[2] = bh;
        buf[3] = bl;
        let r = Frame { opcode: command.opcode(), args: buf, len: 4 };
        assert(r@.args =~= be_bytes(a) + be_bytes(b));
        r
    }

    /// The frame of a command with three 16-bit parameters.
    pub(crate) fn words3(command: Command, a: u16, b: u16, c: u16) -> (r: Frame)
        ensures
            r@ == frame_of(command, be_bytes(a) + be_bytes(b) + be_bytes(c)),
    {
        let mut buf = [0u8; MAX_ARGS];
        let (ah, al) = split(a);
        let (bh, bl) = split(b);
        let (ch, cl) = split(c);
        buf[0] = ah;
        buf[1] = al;
        buf[2] = bh;
        buf[3] = bl;
        buf[4] = ch;
        buf[5] = cl;
        let r = Frame { opcode: command.opcode(), args: buf, len: 6 };
        assert(r@.args =~= be_bytes(a) + be_bytes(b) + be_bytes(c));
        r
    }

    /// The opcode byte, sent in command mode.
    pub fn opcode(&self) -> (r: u8)
        ensures
            r == self@.opcode,
    {
        self.opcode
    }

    /// The parameter bytes, sent in data mode after the opcode.
    pub fn args(&self) -> (r: &[u8])
        ensures
            r@ == self@.args,
            r@.len() <= MAX_ARGS,
    {
        proof {
            use_type_invariant(self);
        }
        vstd::slice::slice_subrange(self.args.as_slice(), 0, self.len)
    }
}

/// The frames of a list, each seen as what goes over the bus.
pub open spec fn frames_view(frames: Seq<Frame>) -> Seq<FrameView> {
    frames.map_values(|f: Frame| f@)
}

/// Splits a 16-bit value into its high and low byte.
pub fn split(v: u16) -> (r: (u8, u8))
    ensures
        seq![r.0, r.1] == be_bytes(v),
        r.0 == v / 256,
        r.1 == v % 256,
{
    assert(v >> 8 == v / 256 && v & 0xff == v % 256) by (bit_vector);
    let hi: u8 = (v >> 8) as u8;
    let lo: u8 = (v & 0xff) as u8;
    (hi, lo)
}

} // verus!
