//! The parallel transport: one byte lane of eight data lines, with chip
//! select, write strobe, read strobe and data/command select.
//!
//! A transfer selects the chip, clocks out the command byte with the
//! data/command line low, clocks out the data bytes with that line high,
//! and releases the chip. Each byte is clocked out by pulling the write
//! strobe low, putting the byte on the data lines, and raising the strobe
//! again. The read strobe is never used and stays high.

use vstd::prelude::*;
use crate::command::{split, word_bytes};
use crate::interface::Interface;

verus! {

/// A line of the parallel interface.
#[derive(Clone, Copy, Debug, PartialEq, Eq, Structural)]
pub enum Line {
    /// Chip select, active low.
    Csx,
    /// Write strobe: the panel latches the data lines on its rising edge.
    Wrx,
    /// Read strobe, held high.
    Rdx,
    /// Data/command select: low for a command byte, high for data.
    Dcx,
    /// One of the data lines D0 to D7.
    Data(u8),
}

/// Driving one line high or low.
#[derive(Clone, Copy, Debug, PartialEq, Eq, Structural)]
pub struct PinWrite {
    pub line: Line,
    pub high: bool,
}

/// The number of pin writes that clock out one byte.
pub const STROBE_LEN: usize = 10;

/// The number of pin writes that open a transfer and send its command.
pub const SELECT_LEN: usize = 14;

/// Bit `i` of `byte`.
pub open spec fn bit(byte: u8, i: int) -> bool {
    (byte >> (i as u8)) & 1 == 1
}

/// The pin writes that put `byte` on the data lines: D0 first, each line
/// high where the bit of the byte is set.
pub open spec fn data_bus(byte: u8) -> Seq<PinWrite> {
    Seq::new(8, |i: int| PinWrite { line: Line::Data(i as u8), high: bit(byte, i) })
}

/// The pin writes that clock out one byte.
pub open spec fn strobe(byte: u8) -> Seq<PinWrite> {
    seq![PinWrite { line: Line::Wrx, high: false }] + data_bus(byte) + seq![
        PinWrite { line: Line::Wrx, high: true },
    ]
}

/// The pin writes that open a transfer: select the chip, park the read
/// strobe, clock out the command byte in command mode, and switch to data
/// mode.
pub open spec fn select(command: u8) -> Seq<PinWrite> {
    seq![
        PinWrite { line: Line::Csx, high: false },
        PinWrite { line: Line::Rdx, high: true },
        PinWrite { line: Line::Dcx, high: false },
    ] + strobe(command) + seq![PinWrite { line: Line::Dcx, high: true }]
}

/// The pin write that closes a transfer: release the chip.
pub open spec fn release() -> PinWrite {
    PinWrite { line: Line::Csx, high: true }
}

/// The pin writes that clock out `bytes` one after the other.
pub open spec fn strobes(bytes: Seq<u8>) -> Seq<PinWrite>
    decreases bytes.len(),
{
    if bytes.len() == 0 {
        Seq::empty()
    } else {
        strobes(bytes.drop_last()) + strobe(bytes.last())
    }
}

/// The pin writes of a whole transfer of `command` with the data `bytes`.
pub open spec fn transfer(command: u8, bytes: Seq<u8>) -> Seq<PinWrite> {
    select(command) + strobes(bytes) + seq![release()]
}

/// The sequencer of the parallel interface: it turns bus transfers into the
/// pin writes that perform them, in order. The caller owns the pins and
/// stops at the first write that fails.
#[derive(Clone, Copy, Debug)]
pub struct Gpio8Interface {}

impl Gpio8Interface {
    /// A sequencer for one parallel interface.
    pub fn new() -> Gpio8Interface {
        Gpio8Interface {  }
    }

    /// The pin writes that put `data` on the data lines.
    pub fn set_data_bus(&self, data: u8) -> (r: [PinWrite; 8])
        ensures
            r@ == data_bus(data),
    {
        let mut r = [PinWrite { line: Line::Data(0), high: false };8];
        let mut i: u8 = 0;
        while i < 8
            invariant
                i <= 8,
                forall|j: int| 0 <= j < i ==> r@[j] == data_bus(data)[j],
            decreases 8 - i,
        {
            let high = ((data >> i) & 0b1) == 0b1;
            r[i as usize] = PinWrite { line: Line::Data(i), high };
            i += 1;
        }
        assert(r@ =~= data_bus(data));
        r
    }

    /// The pin writes that clock out one byte: write strobe low, the byte
    /// on the data lines, write strobe high.
    pub fn strobe(&self, byte: u8) -> (r: [PinWrite; STROBE_LEN])
        ensures
            r@ == strobe(byte),
    {
        let bus = self.set_data_bus(byte);
        let r = [
            PinWrite { line: Line::Wrx, high: false },
            bus[0],
            bus[1],
            bus[2],
            bus[3],
            bus[4],
            bus[5],
            bus[6],
            bus[7],
            PinWrite { line: Line::Wrx, high: true },
        ];
        assert(r@ =~= strobe(byte));
        r
    }

    /// The pin writes that open a transfer and send its command byte.
    pub fn select(&self, command: u8) -> (r: [PinWrite; SELECT_LEN])
        ensures
            r@ == select(command),
    {
        let s = self.strobe(command);
        let r = [
            PinWrite { line: Line::Csx, high: false },
            PinWrite { line: Line::Rdx, high: true },
            PinWrite { line: Line::Dcx, high: false },
            s[0],
            s[1],
            s[2],
            s[3],
            s[4],
            s[5],
            s[6],
            s[7],
            s[8],
            s[9],
            PinWrite { line: Line::Dcx, high: true },
        ];
        assert(r@ =~= select(command));
        r
    }

    /// The pin write that closes a transfer.
    pub fn release(&self) -> (r: PinWrite)
        ensures
            r == release(),
    {
        PinWrite { line: Line::Csx, high: true }
    }
}

impl Interface for Gpio8Interface {
    type Op = PinWrite;

    open spec fn framed(&self, command: u8, bytes: Seq<u8>) -> Seq<PinWrite> {
        transfer(command, bytes)
    }

    /// The pin writes of a transfer of `command` with the bytes `data`.
    fn write(&self, command: u8, data: &[u8]) -> (r: Vec<PinWrite>)
    {
        let mut out: Vec<PinWrite> = Vec::new();
        extend(&mut out, self.select(command).as_slice());
        let mut i: usize = 0;
        while i < data.len()
            invariant
                i <= data.len(),
                out@ == select(command) + strobes(data@.take(i as int)),
            decreases data.len() - i,
        {
            assert(data@.take(i + 1).drop_last() =~= data@.take(i as int));
            extend(&mut out, self.strobe(data[i]).as_slice());
            i += 1;
        }
        assert(data@.take(i as int) =~= data@);
        out.push(self.release());
        out
    }

    /// The pin writes of a transfer of `command` with the 16-bit words
    /// `data`, each sent most significant byte first.
    fn write_iter(&self, command: u8, data: &[u16]) -> (r: Vec<PinWrite>)
    {
        let mut out: Vec<PinWrite> = Vec::new();
        extend(&mut out, self.select(command).as_slice());
        let mut i: usize = 0;
        while i < data.len()
            invariant
                i <= data.len(),
                out@ == select(command) + strobes(word_bytes(data@.take(i as int))),
            decreases data.len() - i,
        {
            assert(data@.take(i + 1).drop_last() =~= data@.take(i as int));
            let (hi, lo) = split(data[i]);
            extend(&mut out, self.strobe(hi).as_slice());
            extend(&mut out, self.strobe(lo).as_slice());
            proof {
                let before = word_bytes(data@.take(i as int));
                lemma_strobes_push(before, hi);
                lemma_strobes_push(before.push(hi), lo);
                assert(before.push(hi).push(lo) =~= before + seq![hi, lo]);
                assert(out@ =~= select(command) + strobes(before + seq![hi, lo]));
            }
            i += 1;
        }
        assert(data@.take(i as int) =~= data@);
        out.push(self.release());
        out
    }
}

/// Appends `more` to `out`.
fn extend(out: &mut Vec<PinWrite>, more: &[PinWrite])
    ensures
        final(out)@ == old(out)@ + more@,
{
    let mut i: usize = 0;
    while i < more.len()
        invariant
            i <= more.len(),
            out@ == old(out)@ + more@.take(i as int),
        decreases more.len() - i,
    {
        out.push(more[i]);
        i += 1;
        assert(more@.take(i as int) =~= more@.take(i - 1).push(more@[i - 1]));
    }
    assert(more@.take(i as int) =~= more@);
}

/// The data lines carry the byte: reading D7 down to D0 as a binary number
/// gives the byte back.
pub proof fn lemma_data_bus_carries_byte(byte: u8)
    ensures
        data_bus(byte).len() == 8,
        forall|i: int| 0 <= i < 8 ==> (#[trigger] data_bus(byte)[i]).line == Line::Data(i as u8),
        byte == (if data_bus(byte)[0].high { 1int } else { 0 })
            + (if data_bus(byte)[1].high { 2int } else { 0 })
            + (if data_bus(byte)[2].high { 4int } else { 0 })
            + (if data_bus(byte)[3].high { 8int } else { 0 })
            + (if data_bus(byte)[4].high { 16int } else { 0 })
            + (if data_bus(byte)[5].high { 32int } else { 0 })
            + (if data_bus(byte)[6].high { 64int } else { 0 })
            + (if data_bus(byte)[7].high { 128int } else { 0 }),
{
    assert(byte == (if (byte >> 0u8) & 1 == 1 { 1int } else { 0 })
        + (if (byte >> 1u8) & 1 == 1 { 2int } else { 0 })
        + (if (byte >> 2u8) & 1 == 1 { 4int } else { 0 })
        + (if (byte >> 3u8) & 1 == 1 { 8int } else { 0 })
        + (if (byte >> 4u8) & 1 == 1 { 16int } else { 0 })
        + (if (byte >> 5u8) & 1 == 1 { 32int } else { 0 })
        + (if (byte >> 6u8) & 1 == 1 { 64int } else { 0 })
        + (if (byte >> 7u8) & 1 == 1 { 128int } else { 0 })) by (bit_vector);
}

/// Clocking out one more byte adds its strobe at the end.
pub proof fn lemma_strobes_push(bytes: Seq<u8>, byte: u8)
    ensures
        strobes(bytes.push(byte)) == strobes(bytes) + strobe(byte),
{
    assert(bytes.push(byte).drop_last() =~= bytes);
}

/// The length of a list of strobes: ten pin writes for each byte.
pub proof fn lemma_strobes_len(bytes: Seq<u8>)
    ensures
        strobes(bytes).len() == STROBE_LEN * bytes.len(),
    decreases bytes.len(),
{
    if bytes.len() > 0 {
        lemma_strobes_len(bytes.drop_last());
    }
}

/// A transfer is bracketed by chip select: it begins by pulling the line
/// low, ends by raising it, and does not touch it in between. The
/// data/command line is low for the command byte alone.
pub proof fn lemma_transfer_is_bracketed(command: u8, bytes: Seq<u8>)
    ensures
        transfer(command, bytes).len() == SELECT_LEN + STROBE_LEN * bytes.len() + 1,
        transfer(command, bytes).first() == (PinWrite { line: Line::Csx, high: false }),
        transfer(command, bytes).last() == release(),
        forall|i: int|
            0 < i < transfer(command, bytes).len() - 1 ==> (#[trigger] transfer(command, bytes)[i]).line
                != Line::Csx,
        forall|i: int|
            SELECT_LEN <= i < transfer(command, bytes).len() ==> (#[trigger] transfer(
                command,
                bytes,
            )[i]).line != Line::Dcx,
{
    lemma_strobes_len(bytes);
    lemma_strobes_lines(bytes);
    let t = transfer(command, bytes);
    assert forall|i: int| 0 < i < t.len() - 1 implies (#[trigger] t[i]).line != Line::Csx by {
        if i >= SELECT_LEN {
            assert(t[i] == strobes(bytes)[i - SELECT_LEN]);
        }
    }
    assert forall|i: int| SELECT_LEN <= i < t.len() implies (#[trigger] t[i]).line != Line::Dcx by {
        if i < t.len() - 1 {
            assert(t[i] == strobes(bytes)[i - SELECT_LEN]);
        }
    }
}

/// Clocking out bytes drives the write strobe and the data lines, and no
/// other line.
pub proof fn lemma_strobes_lines(bytes: Seq<u8>)
    ensures
        forall|i: int|
            0 <= i < strobes(bytes).len() ==> {
                let line = (#[trigger] strobes(bytes)[i]).line;
                line == Line::Wrx || (line matches Line::Data(d) && d < 8)
            },
    decreases bytes.len(),
{
    if bytes.len() > 0 {
        lemma_strobes_lines(bytes.drop_last());
        lemma_strobes_len(bytes.drop_last());
        let n = strobes(bytes.drop_last()).len();
        assert forall|i: int| 0 <= i < strobes(bytes).len() implies {
            let line = (#[trigger] strobes(bytes)[i]).line;
            line == Line::Wrx || (line matches Line::Data(d) && d < 8)
        } by {
            if i < n {
                assert(strobes(bytes)[i] == strobes(bytes.drop_last())[i]);
            } else {
                assert(strobes(bytes)[i] == strobe(bytes.last())[i - n]);
            }
        }
    }
}

} // verus!
