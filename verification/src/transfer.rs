use vstd::prelude::*;
use crate::errors::Error;

verus! {

/// One bulk packet unit; reads larger than this are reassembled from a
/// pipeline of same-sized requests.
pub const MAX_PACKET_LENGTH: usize = 64;

/// A timeout-bounded bulk transport over a claimed interface. The binary
/// implements this for the real USB interface; `ScriptedTransport` below
/// implements it over canned responses.
pub trait InterfaceExt {
    /// Issue one bulk-OUT transfer; a success reports how many bytes the
    /// device accepted, never more than were offered.
    fn write_bulk(&mut self, endpoint: u8, data: &Vec<u8>, timeout_ms: u64) -> (r: Result<
        usize,
        Error,
    >)
        ensures
            r matches Ok(n) ==> n <= data@.len(),
            r matches Err(e) ==> (e == Error::TimedOut || e == Error::TransferFailure),
    ;

    /// Issue a bulk-IN read of up to `length` bytes; a success returns the
    /// bytes received, never more than were asked for.
    fn read_bulk(&mut self, endpoint: u8, length: usize, timeout_ms: u64) -> (r: Result<
        Vec<u8>,
        Error,
    >)
        ensures
            r matches Ok(d) ==> d@.len() <= length,
            r matches Err(e) ==> (e == Error::TimedOut || e == Error::TransferFailure),
    ;
}

/// How many same-sized requests a multi-packet read keeps pipelined: one
/// per packet unit of the buffer, plus room for the zero-length terminator.
pub fn required_transfers(buffer_len: usize) -> (n: usize)
    requires
        buffer_len < usize::MAX,
    ensures
        n == (buffer_len + 1) / (MAX_PACKET_LENGTH as int),
{
    (buffer_len + 1) / MAX_PACKET_LENGTH
}

/// How many bytes of a completed packet fit in the buffer at `offset`.
pub open spec fn bulk_copy_len(buffer_len: int, offset: int, packet_len: int) -> int {
    if packet_len <= buffer_len - offset {
        packet_len
    } else {
        buffer_len - offset
    }
}

/// A multi-packet read ends on a zero-length completion (explicit
/// end-of-transfer marker), on a short packet (natural end), or when the
/// buffer has been filled; anything else keeps the pipeline going.
pub open spec fn bulk_read_complete(buffer_len: int, new_offset: int, packet_len: int) -> bool {
    packet_len == 0 || packet_len != MAX_PACKET_LENGTH || new_offset == buffer_len
}

/// Apply one completed bulk-IN packet to the output buffer: copy it at the
/// current offset (clamped to the buffer's end) and decide whether the read
/// is finished. Returns the new offset and the completion decision.
pub fn bulk_read_step(buffer: &mut Vec<u8>, offset: usize, packet: &Vec<u8>) -> (r: (usize, bool))
    requires
        offset <= old(buffer)@.len(),
        packet@.len() <= MAX_PACKET_LENGTH,
    ensures
        final(buffer)@.len() == old(buffer)@.len(),
        r.0 == offset + bulk_copy_len(old(buffer)@.len() as int, offset as int, packet@.len() as int),
        r.0 <= final(buffer)@.len(),
        forall|i: int| 0 <= i < offset ==> final(buffer)@[i] == old(buffer)@[i],
        forall|i: int| offset <= i < r.0 ==> final(buffer)@[i] == packet@[i - offset],
        forall|i: int| r.0 <= i < final(buffer)@.len() ==> final(buffer)@[i] == old(buffer)@[i],
        r.1 == bulk_read_complete(old(buffer)@.len() as int, r.0 as int, packet@.len() as int),
{
    let room = buffer.len() - offset;
    let copy_len = if packet.len() <= room {
        packet.len()
    } else {
        room
    };
    let mut i: usize = 0;
    while i < copy_len
        invariant
            i <= copy_len,
            copy_len <= packet@.len(),
            offset + copy_len <= buffer@.len(),
            offset + copy_len <= usize::MAX,
            buffer@.len() == old(buffer)@.len(),
            forall|k: int| 0 <= k < offset ==> buffer@[k] == old(buffer)@[k],
            forall|k: int| offset <= k < offset + i ==> buffer@[k] == packet@[k - offset],
            forall|k: int| offset + i <= k < buffer@.len() ==> buffer@[k] == old(buffer)@[k],
        decreases copy_len - i,
    {
        buffer.set(offset + i, packet[i]);
        i += 1;
    }
    let new_offset = offset + copy_len;
    let done = packet.len() == 0 || packet.len() != MAX_PACKET_LENGTH || new_offset
        == buffer.len();
    (new_offset, done)
}

/// A short or empty packet always ends a multi-packet bulk read, and the
/// bytes accumulated never exceed the caller's buffer length: a device
/// that answers a long read with a short final packet terminates the read
/// with exactly the bytes received so far.
pub proof fn lemma_short_packet_ends_bulk_read(buffer_len: int, offset: int, packet_len: int)
    requires
        0 <= offset <= buffer_len,
        0 <= packet_len < MAX_PACKET_LENGTH,
    ensures
        bulk_read_complete(
            buffer_len,
            offset + bulk_copy_len(buffer_len, offset, packet_len),
            packet_len,
        ),
        offset + bulk_copy_len(buffer_len, offset, packet_len) <= buffer_len,
{
}

/// An in-memory transport that answers bulk reads from a canned response
/// list, in order, and accepts every write whole. Lets the application-mode
/// adapter run end to end without hardware.
pub struct ScriptedTransport {
    pub responses: Vec<Vec<u8>>,
}

impl ScriptedTransport {
    pub fn new(responses: Vec<Vec<u8>>) -> (t: ScriptedTransport)
        ensures
            t.responses == responses,
    {
        ScriptedTransport { responses }
    }
}

impl InterfaceExt for ScriptedTransport {
    fn write_bulk(&mut self, endpoint: u8, data: &Vec<u8>, timeout_ms: u64) -> (r: Result<
        usize,
        Error,
    >) {
        Ok(data.len())
    }

    fn read_bulk(&mut self, endpoint: u8, length: usize, timeout_ms: u64) -> (r: Result<
        Vec<u8>,
        Error,
    >) {
        if self.responses.len() == 0 {
            return Err(Error::TimedOut);
        }
        let mut next = self.responses.remove(0);
        if next.len() > length {
            next.truncate(length);
        }
        Ok(next)
    }
}

} // verus!
