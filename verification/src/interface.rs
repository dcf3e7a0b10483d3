//! The bus between the controller and the panel, as a transport sees it.

use vstd::prelude::*;
use crate::command::{word_bytes, Frame};
use crate::controller::Draw;

verus! {

/// A transport: it turns the two kinds of bus transfer into the operations
/// on its lines that perform them, in order.
///
/// Both kinds are framed alike. A transfer of words is the transfer of
/// their bytes, most significant byte first, so the controller never has to
/// know which transport it talks to.
pub trait Interface {
    /// One operation on a line of the transport.
    type Op;

    /// The operations of a transfer of `command` with the data `bytes`.
    spec fn framed(&self, command: u8, bytes: Seq<u8>) -> Seq<Self::Op>;

    /// The operations that send a command byte followed by its parameter
    /// bytes.
    fn write(&self, command: u8, data: &[u8]) -> (r: Vec<Self::Op>)
        ensures
            r@ == self.framed(command, data@),
    ;

    /// The operations that send a command byte followed by 16-bit words,
    /// each most significant byte first.
    fn write_iter(&self, command: u8, data: &[u16]) -> (r: Vec<Self::Op>)
        ensures
            r@ == self.framed(command, word_bytes(data@)),
    ;
}

/// The operations that send `frame` over `transport`: one transfer of the
/// frame's opcode with its parameter bytes.
pub fn send_frame<T: Interface>(transport: &T, frame: &Frame) -> (r: Vec<T::Op>)
    ensures
        r@ == transport.framed(frame@.opcode, frame@.args),
{
    transport.write(frame.opcode(), frame.args())
}

/// The operations that perform `draw` on `transport`: a transfer for each of
/// the two window frames, then one transfer of the opcode of `draw.write`
/// with the pixels as its data, each pixel most significant byte first.
pub fn send_draw<T: Interface>(transport: &T, draw: &Draw<&[u16]>) -> (r: Vec<T::Op>)
    ensures
        r@ == transport.framed(draw.window[0]@.opcode, draw.window[0]@.args) + transport.framed(
            draw.window[1]@.opcode,
            draw.window[1]@.args,
        ) + transport.framed(draw.write@.opcode, word_bytes(draw.pixels@)),
{
    let mut out = send_frame(transport, &draw.window[0]);
    let mut rows = send_frame(transport, &draw.window[1]);
    let mut pixels = transport.write_iter(draw.write.opcode(), draw.pixels);
    out.append(&mut rows);
    out.append(&mut pixels);
    out
}

} // verus!
