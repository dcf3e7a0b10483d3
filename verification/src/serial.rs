//! The serial transport: one data line shared by commands and data, with
//! chip select and data/command select.
//!
//! A transfer selects the chip, shifts out the command byte with the
//! data/command line low, shifts out the data bytes with that line high,
//! and releases the chip.

use vstd::prelude::*;
use crate::command::{split, word_bytes};
use crate::interface::Interface;

verus! {

/// One operation on the lines of the serial interface.
#[derive(Clone, Copy, Debug, PartialEq, Eq, Structural)]
pub enum SerialOp {
    /// Drive chip select, which is active low: `false` selects the panel.
    ChipSelect(bool),
    /// Drive data/command select: `false` for a command byte, `true` for
    /// data.
    DataCommand(bool),
    /// Shift one byte out on the data line.
    Shift(u8),
}

/// The operations that open a transfer: select the chip, shift out the
/// command byte in command mode, and switch to data mode.
pub open spec fn serial_select(command: u8) -> Seq<SerialOp> {
    seq![
        SerialOp::ChipSelect(false),
        SerialOp::DataCommand(false),
        SerialOp::Shift(command),
        SerialOp::DataCommand(true),
    ]
}

/// The operations that shift out `bytes` one after the other.
pub open spec fn shifts(bytes: Seq<u8>) -> Seq<SerialOp> {
    bytes.map_values(|b: u8| SerialOp::Shift(b))
}

/// The operations of a whole transfer of `command` with the data `bytes`.
pub open spec fn serial_transfer(command: u8, bytes: Seq<u8>) -> Seq<SerialOp> {
    serial_select(command) + shifts(bytes) + seq![SerialOp::ChipSelect(true)]
}

/// The sequencer of the serial interface: it turns bus transfers into the
/// line operations that perform them, in order. The caller owns the lines
/// and stops at the first operation that fails.
#[derive(Clone, Copy, Debug)]
pub struct SpiInterface {}

impl SpiInterface {
    /// A sequencer for one serial interface.
    pub fn new() -> SpiInterface {
        SpiInterface {  }
    }

    /// The operations that open a transfer and send its command byte.
    pub fn select(&self, command: u8) -> (r: [SerialOp; 4])
        ensures
            r@ == serial_select(command),
    {
        let r = [
            SerialOp::ChipSelect(false),
            SerialOp::DataCommand(false),
            SerialOp::Shift(command),
            SerialOp::DataCommand(true),
        ];
        assert(r@ =~= serial_select(command));
        r
    }

    /// The operation that closes a transfer.
    pub fn release(&self) -> (r: SerialOp)
        ensures
            r == SerialOp::ChipSelect(true),
    {
        SerialOp::ChipSelect(true)
    }
}

impl Interface for SpiInterface {
    type Op = SerialOp;

    open spec fn framed(&self, command: u8, bytes: Seq<u8>) -> Seq<SerialOp> {
        serial_transfer(command, bytes)
    }

    fn write(&self, command: u8, data: &[u8]) -> (r: Vec<SerialOp>) {
        let head = self.select(command);
        let mut out: Vec<SerialOp> = Vec::new();
        out.push(head[0]);
        out.push(head[1]);
        out.push(head[2]);
        out.push(head[3]);
        let mut i: usize = 0;
        while i < data.len()
            invariant
                i <= data.len(),
                out@ == serial_select(command) + shifts(data@.take(i as int)),
            decreases data.len() - i,
        {
            out.push(SerialOp::Shift(data[i]));
            i += 1;
            assert(out@ =~= serial_select(command) + shifts(data@.take(i as int)));
        }
        assert(data@.take(i as int) =~= data@);
        out.push(self.release());
        out
    }

    fn write_iter(&self, command: u8, data: &[u16]) -> (r: Vec<SerialOp>) {
        let head = self.select(command);
        let mut out: Vec<SerialOp> = Vec::new();
        out.push(head[0]);
        out.push(head[1]);
        out.push(head[2]);
        out.push(head[3]);
        let mut i: usize = 0;
        while i < data.len()
            invariant
                i <= data.len(),
                out@ == serial_select(command) + shifts(word_bytes(data@.take(i as int))),
            decreases data.len() - i,
        {
            assert(data@.take(i + 1).drop_last() =~= data@.take(i as int));
            let (hi, lo) = split(data[i]);
            out.push(SerialOp::Shift(hi));
            out.push(SerialOp::Shift(lo));
            i += 1;
            assert(out@ =~= serial_select(command) + shifts(word_bytes(data@.take(i as int))));
        }
        assert(data@.take(i as int) =~= data@);
        out.push(self.release());
        out
    }
}

/// A serial transfer is bracketed by chip select: it begins by selecting
/// the panel, ends by releasing it, and does not touch the line in
/// between. The command byte is the only byte shifted out in command mode,
/// and the data bytes follow it in order.
pub proof fn lemma_serial_transfer_is_bracketed(command: u8, bytes: Seq<u8>)
    ensures
        serial_transfer(command, bytes).len() == bytes.len() + 5,
        serial_transfer(command, bytes).first() == SerialOp::ChipSelect(false),
        serial_transfer(command, bytes).last() == SerialOp::ChipSelect(true),
        serial_transfer(command, bytes)[1] == SerialOp::DataCommand(false),
        serial_transfer(command, bytes)[2] == SerialOp::Shift(command),
        serial_transfer(command, bytes)[3] == SerialOp::DataCommand(true),
        forall|i: int|
            0 <= i < bytes.len() ==> #[trigger] serial_transfer(command, bytes)[i + 4] == SerialOp::Shift(
                bytes[i],
            ),
{
}

} // verus!
