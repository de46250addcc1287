use vstd::prelude::*;
use crate::errors::Error;
use crate::image::CONFIGURATION_SIZE;

verus! {

/// One vendor control transfer for the caller to issue: class type,
/// interface recipient, fields as given. The engine below decides every
/// request; the binary only carries them out and reports each completion.
pub enum DfuRequest {
    ControlIn { request: u8, value: u16, index: u16, length: u16 },
    ControlOut { request: u8, value: u16, index: u16, data: Vec<u8> },
}

pub open spec fn is_control_in(r: DfuRequest, req: u8, val: u16, idx: u16, len: u16) -> bool {
    r matches DfuRequest::ControlIn { request, value, index, length } && request == req && value
        == val && index == idx && length == len
}

pub open spec fn is_control_out(r: DfuRequest, req: u8, val: u16, idx: u16, payload: Seq<u8>) -> bool {
    r matches DfuRequest::ControlOut { request, value, index, data } && request == req && value
        == val && index == idx && data@ == payload
}

/// The side-channel status query: request 3, value fixed at 0, 6-byte
/// response. It never consumes the sequence counter.
pub open spec fn is_status_probe(r: DfuRequest) -> bool {
    is_control_in(r, 3, 0, 0, 6)
}

/// Payload of the "set read command" setup: opcode 2 (READ), a reserved
/// byte, the fixed start block 0x03f0, the little-endian image size, and
/// two trailing zero bytes.
pub open spec fn read_setup_payload() -> Seq<u8> {
    seq![2u8, 0u8, 0xf0u8, 0x03u8, 0x00u8, 0x40u8, 0u8, 0u8]
}

/// Payload of the "binary-mode configuration" setup: opcode 6 (BIN), flag 1
/// to disable the upload header, and nine zero-filled bytes.
pub open spec fn binary_mode_payload() -> Seq<u8> {
    seq![6u8, 1u8, 0u8, 0u8, 0u8, 0u8, 0u8, 0u8, 0u8, 0u8, 0u8]
}

/// Payload of the "set write command" setup: opcode 1 (WRITE), mirroring
/// the read setup's address and size encoding.
pub open spec fn write_setup_payload() -> Seq<u8> {
    seq![1u8, 0u8, 0xf0u8, 0x03u8, 0x00u8, 0x40u8, 0u8, 0u8]
}

/// Payload of the RESET command: opcode 7 plus the fixed vendor magic.
pub open spec fn reset_payload() -> Seq<u8> {
    seq![7u8, 0x20u8, 0xdfu8, 0x00u8, 0x01u8, 0u8, 0u8, 0u8]
}

/// Each block transfer moves this many bytes.
pub const CHUNK_SIZE: u16 = 1024;

/// Device state code: idle / complete, safe to issue the next command.
pub const STATE_IDLE: u8 = 2;

/// Device state code: ready to accept the next data chunk of a write.
pub const STATE_READY_FOR_DATA: u8 = 5;

fn status_probe_request() -> (r: DfuRequest)
    ensures
        is_status_probe(r),
{
    DfuRequest::ControlIn { request: 3, value: 0, index: 0, length: 6 }
}

fn read_setup_bytes() -> (d: Vec<u8>)
    ensures
        d@ == read_setup_payload(),
{
    let mut d: Vec<u8> = Vec::new();
    d.push(2);
    d.push(0);
    d.push(0xf0);
    d.push(0x03);
    d.push(0x00);
    d.push(0x40);
    d.push(0);
    d.push(0);
    assert(d@ =~= read_setup_payload());
    d
}

fn binary_mode_bytes() -> (d: Vec<u8>)
    ensures
        d@ == binary_mode_payload(),
{
    let mut d: Vec<u8> = Vec::new();
    d.push(6);
    d.push(1);
    let mut i: usize = 0;
    while i < 9
        invariant
            i <= 9,
            d@.len() == i + 2,
            d@[0] == 6u8,
            d@[1] == 1u8,
            forall|k: int| 2 <= k < d@.len() ==> d@[k] == 0u8,
        decreases 9 - i,
    {
        d.push(0);
        i += 1;
    }
    assert(d@ =~= binary_mode_payload());
    d
}

fn write_setup_bytes() -> (d: Vec<u8>)
    ensures
        d@ == write_setup_payload(),
{
    let mut d: Vec<u8> = Vec::new();
    d.push(1);
    d.push(0);
    d.push(0xf0);
    d.push(0x03);
    d.push(0x00);
    d.push(0x40);
    d.push(0);
    d.push(0);
    assert(d@ =~= write_setup_payload());
    d
}

fn reset_bytes() -> (d: Vec<u8>)
    ensures
        d@ == reset_payload(),
{
    let mut d: Vec<u8> = Vec::new();
    d.push(7);
    d.push(0x20);
    d.push(0xdf);
    d.push(0x00);
    d.push(0x01);
    d.push(0);
    d.push(0);
    d.push(0);
    assert(d@ =~= reset_payload());
    d
}

fn append_bytes(dst: &mut Vec<u8>, src: &Vec<u8>)
    ensures
        final(dst)@ == old(dst)@ + src@,
{
    let mut i: usize = 0;
    while i < src.len()
        invariant
            i <= src@.len(),
            dst@ == old(dst)@ + src@.subrange(0, i as int),
        decreases src@.len() - i,
    {
        proof {
            assert(old(dst)@ + src@.subrange(0, i + 1) =~= (old(dst)@ + src@.subrange(
                0,
                i as int,
            )).push(src@[i as int]));
        }
        dst.push(src[i]);
        i += 1;
    }
    proof {
        assert(src@.subrange(0, src@.len() as int) =~= src@);
    }
}

/// A bootloader-mode session: the per-session packet sequence counter. The
/// device uses the counter, passed as each command's value field, to detect
/// retransmission and reordering, so it must advance exactly once per
/// state-mutating transfer and never repeat or skip.
pub struct Xds110DfuDevice {
    pub packet_count: u16,
}

impl Xds110DfuDevice {
    pub fn new() -> (d: Xds110DfuDevice)
        ensures
            d.packet_count == 0,
    {
        Xds110DfuDevice { packet_count: 0 }
    }

    /// The fixed probe confirming the device speaks the binary variant of
    /// the update protocol: request 0x42, value 0x23, 4-byte response. A
    /// failure of this transfer is fatal to the whole workflow. It does not
    /// consume the sequence counter.
    pub fn ensure_binary_protocol(&self) -> (r: DfuRequest)
        ensures
            is_control_in(r, 0x42, 0x23, 0, 4),
    {
        DfuRequest::ControlIn { request: 0x42, value: 0x23, index: 0, length: 4 }
    }

    /// The mandatory after-every-operation status query; it never consumes
    /// the sequence counter.
    pub fn get_dfu_status(&self) -> (r: DfuRequest)
        ensures
            is_status_probe(r),
    {
        status_probe_request()
    }
}

/// Where a configuration read stands. Each phase names the next transfer to
/// issue; `Complete` means the assembled image is ready.
#[derive(Clone, Copy, PartialEq, Eq, Structural, Debug)]
pub enum ReadPhase {
    /// Status query carrying the current counter value: establishes the
    /// session's starting cursor. The only status call that consumes the
    /// counter.
    InitialStatus,
    /// Plain status probe confirming the start.
    ConfirmStart,
    /// The "set read command" setup transfer.
    SetReadCommand,
    /// Status probe after the read setup.
    ConfirmSetRead,
    /// The "binary-mode configuration" setup transfer.
    SetBinaryMode,
    /// Status probe after the binary-mode setup.
    ConfirmSetBinary,
    /// One 1024-byte block read at the current offset.
    ReadChunk,
    /// The closing status probe before the image is handed out.
    FinalStatus,
    Complete,
}

pub open spec fn read_consumes_counter(p: ReadPhase) -> bool {
    ||| p is InitialStatus
    ||| p is SetReadCommand
    ||| p is SetBinaryMode
    ||| p is ReadChunk
}

/// The chunked configuration-read state machine. Drive it by issuing
/// `next_request`, then reporting the completed transfer's data to
/// `on_complete`, until it reports completion; `finish` hands back the
/// assembled image and the session with its advanced counter.
pub struct ReadMachine {
    pub phase: ReadPhase,
    pub seq: u16,
    pub offset: u16,
    pub image: Vec<u8>,
}

impl ReadMachine {
    /// Counter increments this machine may still perform; keeping
    /// `seq` clear of overflow by this margin is part of well-formedness.
    pub open spec fn pending_increments(self) -> int {
        let chunks_left = (CONFIGURATION_SIZE - self.offset as int) / (CHUNK_SIZE as int);
        match self.phase {
            ReadPhase::InitialStatus => 3 + chunks_left,
            ReadPhase::ConfirmStart => 2 + chunks_left,
            ReadPhase::SetReadCommand => 2 + chunks_left,
            ReadPhase::ConfirmSetRead => 1 + chunks_left,
            ReadPhase::SetBinaryMode => 1 + chunks_left,
            ReadPhase::ConfirmSetBinary => chunks_left,
            ReadPhase::ReadChunk => chunks_left,
            ReadPhase::FinalStatus => 0,
            ReadPhase::Complete => 0,
        }
    }

    pub open spec fn wf(self) -> bool {
        &&& self.offset <= CONFIGURATION_SIZE
        &&& self.offset as int % (CHUNK_SIZE as int) == 0
        &&& (self.phase is ReadChunk ==> self.offset < CONFIGURATION_SIZE)
        &&& (self.phase is InitialStatus || self.phase is ConfirmStart || self.phase
            is SetReadCommand || self.phase is ConfirmSetRead || self.phase is SetBinaryMode
            || self.phase is ConfirmSetBinary ==> self.offset == 0)
        &&& self.seq as int + self.pending_increments() <= u16::MAX
    }

    /// The transfer to issue for the current phase. The counter value used
    /// by each counter-consuming transfer is exactly the session counter at
    /// that moment; block reads carry their byte offset in the index field.
    pub fn next_request(&self) -> (r: DfuRequest)
        requires
            self.wf(),
            !(self.phase is Complete),
        ensures
            match self.phase {
                ReadPhase::InitialStatus => is_control_in(r, 3, self.seq, 0, 6),
                ReadPhase::ConfirmStart => is_status_probe(r),
                ReadPhase::SetReadCommand => is_control_out(r, 1, self.seq, 0, read_setup_payload()),
                ReadPhase::ConfirmSetRead => is_status_probe(r),
                ReadPhase::SetBinaryMode => is_control_out(r, 1, self.seq, 0, binary_mode_payload()),
                ReadPhase::ConfirmSetBinary => is_status_probe(r),
                ReadPhase::ReadChunk => is_control_in(r, 2, self.seq, self.offset, CHUNK_SIZE),
                ReadPhase::FinalStatus => is_status_probe(r),
                ReadPhase::Complete => true,
            },
    {
        match self.phase {
            ReadPhase::InitialStatus => DfuRequest::ControlIn {
                request: 3,
                value: self.seq,
                index: 0,
                length: 6,
            },
            ReadPhase::ConfirmStart => status_probe_request(),
            ReadPhase::SetReadCommand => DfuRequest::ControlOut {
                request: 1,
                value: self.seq,
                index: 0,
                data: read_setup_bytes(),
            },
            ReadPhase::ConfirmSetRead => status_probe_request(),
            ReadPhase::SetBinaryMode => DfuRequest::ControlOut {
                request: 1,
                value: self.seq,
                index: 0,
                data: binary_mode_bytes(),
            },
            ReadPhase::ConfirmSetBinary => status_probe_request(),
            ReadPhase::ReadChunk => DfuRequest::ControlIn {
                request: 2,
                value: self.seq,
                index: self.offset,
                length: CHUNK_SIZE,
            },
            ReadPhase::FinalStatus => status_probe_request(),
            ReadPhase::Complete => status_probe_request(),
        }
    }

    /// Record the completion of the current phase's transfer: advance the
    /// counter exactly when that transfer consumed it, append a completed
    /// block read to the image, and move to the next phase. Returns whether
    /// the read is complete.
    pub fn on_complete(&mut self, data: &Vec<u8>) -> (done: bool)
        requires
            old(self).wf(),
            !(old(self).phase is Complete),
            data@.len() <= CHUNK_SIZE,
        ensures
            final(self).wf(),
            done == (final(self).phase is Complete),
            final(self).seq as int == old(self).seq as int + (if read_consumes_counter(
                old(self).phase,
            ) {
                1int
            } else {
                0int
            }),
            match old(self).phase {
                ReadPhase::InitialStatus => final(self).phase is ConfirmStart,
                ReadPhase::ConfirmStart => final(self).phase is SetReadCommand,
                ReadPhase::SetReadCommand => final(self).phase is ConfirmSetRead,
                ReadPhase::ConfirmSetRead => final(self).phase is SetBinaryMode,
                ReadPhase::SetBinaryMode => final(self).phase is ConfirmSetBinary,
                ReadPhase::ConfirmSetBinary => final(self).phase is ReadChunk,
                ReadPhase::ReadChunk => {
                    &&& final(self).offset == old(self).offset + CHUNK_SIZE
                    &&& (final(self).phase is ReadChunk <==> old(self).offset + CHUNK_SIZE
                        < CONFIGURATION_SIZE)
                    &&& (final(self).phase is FinalStatus <==> old(self).offset + CHUNK_SIZE
                        == CONFIGURATION_SIZE)
                },
                ReadPhase::FinalStatus => final(self).phase is Complete,
                ReadPhase::Complete => false,
            },
            final(self).image@ == if old(self).phase is ReadChunk {
                old(self).image@ + data@
            } else {
                old(self).image@
            },
            old(self).phase is ReadChunk ==> final(self).offset == old(self).offset + CHUNK_SIZE,
            !(old(self).phase is ReadChunk) ==> final(self).offset == old(self).offset,
    {
        match self.phase {
            ReadPhase::InitialStatus => {
                self.seq = self.seq + 1;
                self.phase = ReadPhase::ConfirmStart;
            },
            ReadPhase::ConfirmStart => {
                self.phase = ReadPhase::SetReadCommand;
            },
            ReadPhase::SetReadCommand => {
                self.seq = self.seq + 1;
                self.phase = ReadPhase::ConfirmSetRead;
            },
            ReadPhase::ConfirmSetRead => {
                self.phase = ReadPhase::SetBinaryMode;
            },
            ReadPhase::SetBinaryMode => {
                self.seq = self.seq + 1;
                self.phase = ReadPhase::ConfirmSetBinary;
            },
            ReadPhase::ConfirmSetBinary => {
                self.phase = ReadPhase::ReadChunk;
            },
            ReadPhase::ReadChunk => {
                self.seq = self.seq + 1;
                append_bytes(&mut self.image, data);
                self.offset = self.offset + CHUNK_SIZE;
                if self.offset < CONFIGURATION_SIZE as u16 {
                    self.phase = ReadPhase::ReadChunk;
                } else {
                    self.phase = ReadPhase::FinalStatus;
                }
            },
            ReadPhase::FinalStatus => {
                self.phase = ReadPhase::Complete;
            },
            ReadPhase::Complete => {
                self.phase = ReadPhase::Complete;
            },
        }
        match self.phase {
            ReadPhase::Complete => true,
            _ => false,
        }
    }

    /// Hand out the assembled image and the session, its counter advanced
    /// by every transfer this read issued.
    pub fn finish(self) -> (r: (Vec<u8>, Xds110DfuDevice))
        requires
            self.phase is Complete,
        ensures
            r.0 == self.image,
            r.1.packet_count == self.seq,
    {
        let ReadMachine { phase: _, seq, offset: _, image } = self;
        (image, Xds110DfuDevice { packet_count: seq })
    }
}

impl Xds110DfuDevice {
    /// Begin the chunked configuration read. Consumes the session; the
    /// machine returns it, counter advanced, when the read completes.
    pub fn read_configuration(self) -> (m: ReadMachine)
        requires
            self.packet_count + 19 <= u16::MAX,
        ensures
            m.phase is InitialStatus,
            m.seq == self.packet_count,
            m.offset == 0,
            m.image@ == Seq::<u8>::empty(),
            m.wf(),
    {
        let m = ReadMachine {
            phase: ReadPhase::InitialStatus,
            seq: self.packet_count,
            offset: 0,
            image: Vec::new(),
        };
        assert(m.image@ =~= Seq::<u8>::empty());
        m
    }
}

/// Where a configuration write stands. Each phase names the next transfer
/// to issue; the polls repeat their status probe until the device reports
/// the required state.
#[derive(Clone, Copy, PartialEq, Eq, Structural, Debug)]
pub enum WritePhase {
    /// The "set write command" setup transfer.
    SetWriteCommand,
    /// Status probe after the write setup; its content is not examined.
    ConfirmSetWrite,
    /// Poll until the device reports state 5, ready for the next chunk.
    PollChunkReady,
    /// Send the 1024-byte chunk at the current offset.
    SendChunk,
    /// Poll until state 5 before the end-of-download marker.
    PollFinishReady,
    /// Send the zero-length transfer that ends the download.
    SendTerminator,
    /// Poll until state 2, idle / complete.
    PollIdle,
    Complete,
}

pub open spec fn write_consumes_counter(p: WritePhase) -> bool {
    ||| p is SetWriteCommand
    ||| p is SendChunk
    ||| p is SendTerminator
}

/// The chunked configuration-write state machine. No chunk is sent while
/// the device reports any state other than ready-for-data; the machine
/// never alters the image it was given.
pub struct WriteMachine {
    pub phase: WritePhase,
    pub seq: u16,
    pub offset: u16,
    pub image: Vec<u8>,
}

impl WriteMachine {
    /// Counter increments this machine may still perform.
    pub open spec fn pending_increments(self) -> int {
        let chunks_left = (CONFIGURATION_SIZE - self.offset as int) / (CHUNK_SIZE as int);
        match self.phase {
            WritePhase::SetWriteCommand => 2 + chunks_left,
            WritePhase::ConfirmSetWrite => 1 + chunks_left,
            WritePhase::PollChunkReady => 1 + chunks_left,
            WritePhase::SendChunk => 1 + chunks_left,
            WritePhase::PollFinishReady => 1,
            WritePhase::SendTerminator => 1,
            WritePhase::PollIdle => 0,
            WritePhase::Complete => 0,
        }
    }

    pub open spec fn wf(self) -> bool {
        &&& self.image@.len() == CONFIGURATION_SIZE
        &&& self.offset <= CONFIGURATION_SIZE
        &&& self.offset as int % (CHUNK_SIZE as int) == 0
        &&& (self.phase is PollChunkReady || self.phase is SendChunk ==> self.offset
            < CONFIGURATION_SIZE)
        &&& (self.phase is SetWriteCommand || self.phase is ConfirmSetWrite ==> self.offset == 0)
        &&& self.seq as int + self.pending_increments() <= u16::MAX
    }

    /// The transfer to issue for the current phase. A chunk's payload is
    /// exactly the image's bytes at the current offset.
    pub fn next_request(&self) -> (r: DfuRequest)
        requires
            self.wf(),
            !(self.phase is Complete),
        ensures
            match self.phase {
                WritePhase::SetWriteCommand => is_control_out(
                    r,
                    1,
                    self.seq,
                    0,
                    write_setup_payload(),
                ),
                WritePhase::ConfirmSetWrite => is_status_probe(r),
                WritePhase::PollChunkReady => is_status_probe(r),
                WritePhase::SendChunk => is_control_out(
                    r,
                    1,
                    self.seq,
                    0,
                    self.image@.subrange(
                        self.offset as int,
                        self.offset as int + CHUNK_SIZE as int,
                    ),
                ),
                WritePhase::PollFinishReady => is_status_probe(r),
                WritePhase::SendTerminator => is_control_out(r, 1, self.seq, 0, Seq::<u8>::empty()),
                WritePhase::PollIdle => is_status_probe(r),
                WritePhase::Complete => true,
            },
    {
        match self.phase {
            WritePhase::SetWriteCommand => DfuRequest::ControlOut {
                request: 1,
                value: self.seq,
                index: 0,
                data: write_setup_bytes(),
            },
            WritePhase::ConfirmSetWrite => status_probe_request(),
            WritePhase::PollChunkReady => status_probe_request(),
            WritePhase::SendChunk => {
                let base = self.offset as usize;
                let mut chunk: Vec<u8> = Vec::new();
                let mut i: usize = 0;
                while i < CHUNK_SIZE as usize
                    invariant
                        i <= CHUNK_SIZE,
                        base + CHUNK_SIZE <= self.image@.len(),
                        self.image@.len() <= usize::MAX,
                        chunk@.len() == i,
                        forall|k: int| 0 <= k < i ==> chunk@[k] == self.image@[base + k],
                    decreases CHUNK_SIZE - i,
                {
                    chunk.push(self.image[base + i]);
                    i += 1;
                }
                proof {
                    assert(chunk@ =~= self.image@.subrange(
                        self.offset as int,
                        self.offset as int + CHUNK_SIZE as int,
                    ));
                }
                DfuRequest::ControlOut { request: 1, value: self.seq, index: 0, data: chunk }
            },
            WritePhase::PollFinishReady => status_probe_request(),
            WritePhase::SendTerminator => {
                let empty: Vec<u8> = Vec::new();
                assert(empty@ =~= Seq::<u8>::empty());
                DfuRequest::ControlOut { request: 1, value: self.seq, index: 0, data: empty }
            },
            WritePhase::PollIdle => status_probe_request(),
            WritePhase::Complete => status_probe_request(),
        }
    }

    /// Record the completion of the current phase's transfer. A status
    /// response shorter than the fixed 6-byte structure is invalid and
    /// fatal wherever its state byte would be examined; otherwise the polls
    /// repeat until the device reports the state the phase waits for. The
    /// counter advances exactly on the three counter-consuming transfers,
    /// and the image is never modified.
    pub fn on_complete(&mut self, data: &Vec<u8>) -> (r: Result<bool, Error>)
        requires
            old(self).wf(),
            !(old(self).phase is Complete),
        ensures
            final(self).wf(),
            final(self).image@ == old(self).image@,
            r is Err <==> ((old(self).phase is PollChunkReady || old(self).phase is PollFinishReady
                || old(self).phase is PollIdle) && data@.len() < 6),
            r is Err ==> r == Err::<bool, Error>(Error::InvalidData) && *final(self) == *old(self),
            r matches Ok(done) ==> done == (final(self).phase is Complete),
            r is Ok ==> final(self).seq as int == old(self).seq as int + (
            if write_consumes_counter(old(self).phase) {
                1int
            } else {
                0int
            }),
            r is Ok ==> match old(self).phase {
                WritePhase::SetWriteCommand => final(self).phase is ConfirmSetWrite && final(self).offset == old(self).offset,
                WritePhase::ConfirmSetWrite => final(self).phase is PollChunkReady && final(self).offset == old(self).offset,
                WritePhase::PollChunkReady => final(self).offset == old(self).offset && (if data@[4]
                    == STATE_READY_FOR_DATA {
                    final(self).phase is SendChunk
                } else {
                    final(self).phase is PollChunkReady
                }),
                WritePhase::SendChunk => {
                    &&& final(self).offset == old(self).offset + CHUNK_SIZE
                    &&& (final(self).phase is PollChunkReady <==> old(self).offset + CHUNK_SIZE
                        < CONFIGURATION_SIZE)
                    &&& (final(self).phase is PollFinishReady <==> old(self).offset + CHUNK_SIZE
                        == CONFIGURATION_SIZE)
                },
                WritePhase::PollFinishReady => final(self).offset == old(self).offset && (
                if data@[4] == STATE_READY_FOR_DATA {
                    final(self).phase is SendTerminator
                } else {
                    final(self).phase is PollFinishReady
                }),
                WritePhase::SendTerminator => final(self).phase is PollIdle && final(self).offset
                    == old(self).offset,
                WritePhase::PollIdle => final(self).offset == old(self).offset && (if data@[4]
                    == STATE_IDLE {
                    final(self).phase is Complete
                } else {
                    final(self).phase is PollIdle
                }),
                WritePhase::Complete => false,
            },
    {
        match self.phase {
            WritePhase::SetWriteCommand => {
                self.seq = self.seq + 1;
                self.phase = WritePhase::ConfirmSetWrite;
            },
            WritePhase::ConfirmSetWrite => {
                self.phase = WritePhase::PollChunkReady;
            },
            WritePhase::PollChunkReady => {
                if data.len() < 6 {
                    return Err(Error::InvalidData);
                }
                if data[4] == STATE_READY_FOR_DATA {
                    self.phase = WritePhase::SendChunk;
                }
            },
            WritePhase::SendChunk => {
                self.seq = self.seq + 1;
                self.offset = self.offset + CHUNK_SIZE;
                if self.offset < CONFIGURATION_SIZE as u16 {
                    self.phase = WritePhase::PollChunkReady;
                } else {
                    self.phase = WritePhase::PollFinishReady;
                }
            },
            WritePhase::PollFinishReady => {
                if data.len() < 6 {
                    return Err(Error::InvalidData);
                }
                if data[4] == STATE_READY_FOR_DATA {
                    self.phase = WritePhase::SendTerminator;
                }
            },
            WritePhase::SendTerminator => {
                self.seq = self.seq + 1;
                self.phase = WritePhase::PollIdle;
            },
            WritePhase::PollIdle => {
                if data.len() < 6 {
                    return Err(Error::InvalidData);
                }
                if data[4] == STATE_IDLE {
                    self.phase = WritePhase::Complete;
                }
            },
            WritePhase::Complete => {
            },
        }
        match self.phase {
            WritePhase::Complete => Ok(true),
            _ => Ok(false),
        }
    }

    /// Hand the session back, its counter advanced by every transfer this
    /// write issued.
    pub fn finish(self) -> (d: Xds110DfuDevice)
        requires
            self.phase is Complete,
        ensures
            d.packet_count == self.seq,
    {
        Xds110DfuDevice { packet_count: self.seq }
    }
}

/// Where the terminal reset stands.
#[derive(Clone, Copy, PartialEq, Eq, Structural, Debug)]
pub enum ResetPhase {
    /// Poll until state 2 before the reset command may be sent.
    PollBeforeReset,
    /// Send the fixed RESET command.
    SendReset,
    /// Poll until state 2 after the reset command.
    PollAfterReset,
    Complete,
}

/// The terminal reset state machine; it consumes the session, and no
/// further operation is possible once it completes.
pub struct ResetMachine {
    pub phase: ResetPhase,
    pub seq: u16,
}

impl ResetMachine {
    pub open spec fn pending_increments(self) -> int {
        match self.phase {
            ResetPhase::PollBeforeReset => 1,
            ResetPhase::SendReset => 1,
            ResetPhase::PollAfterReset => 0,
            ResetPhase::Complete => 0,
        }
    }

    pub open spec fn wf(self) -> bool {
        self.seq as int + self.pending_increments() <= u16::MAX
    }

    pub fn next_request(&self) -> (r: DfuRequest)
        requires
            self.wf(),
            !(self.phase is Complete),
        ensures
            match self.phase {
                ResetPhase::PollBeforeReset => is_status_probe(r),
                ResetPhase::SendReset => is_control_out(r, 1, self.seq, 0, reset_payload()),
                ResetPhase::PollAfterReset => is_status_probe(r),
                ResetPhase::Complete => true,
            },
    {
        match self.phase {
            ResetPhase::PollBeforeReset => status_probe_request(),
            ResetPhase::SendReset => DfuRequest::ControlOut {
                request: 1,
                value: self.seq,
                index: 0,
                data: reset_bytes(),
            },
            ResetPhase::PollAfterReset => status_probe_request(),
            ResetPhase::Complete => status_probe_request(),
        }
    }

    /// Record the completion of the current phase's transfer: the polls
    /// repeat until the device reports idle, and the RESET command itself
    /// is the only transfer here that consumes the counter.
    pub fn on_complete(&mut self, data: &Vec<u8>) -> (r: Result<bool, Error>)
        requires
            old(self).wf(),
            !(old(self).phase is Complete),
        ensures
            final(self).wf(),
            r is Err <==> ((old(self).phase is PollBeforeReset || old(self).phase
                is PollAfterReset) && data@.len() < 6),
            r is Err ==> r == Err::<bool, Error>(Error::InvalidData) && *final(self) == *old(self),
            r matches Ok(done) ==> done == (final(self).phase is Complete),
            r is Ok ==> final(self).seq as int == old(self).seq as int + (
            if old(self).phase is SendReset {
                1int
            } else {
                0int
            }),
            r is Ok ==> match old(self).phase {
                ResetPhase::PollBeforeReset => if data@[4] == STATE_IDLE {
                    final(self).phase is SendReset
                } else {
                    final(self).phase is PollBeforeReset
                },
                ResetPhase::SendReset => final(self).phase is PollAfterReset,
                ResetPhase::PollAfterReset => if data@[4] == STATE_IDLE {
                    final(self).phase is Complete
                } else {
                    final(self).phase is PollAfterReset
                },
                ResetPhase::Complete => false,
            },
    {
        match self.phase {
            ResetPhase::PollBeforeReset => {
                if data.len() < 6 {
                    return Err(Error::InvalidData);
                }
                if data[4] == STATE_IDLE {
                    self.phase = ResetPhase::SendReset;
                }
            },
            ResetPhase::SendReset => {
                self.seq = self.seq + 1;
                self.phase = ResetPhase::PollAfterReset;
            },
            ResetPhase::PollAfterReset => {
                if data.len() < 6 {
                    return Err(Error::InvalidData);
                }
                if data[4] == STATE_IDLE {
                    self.phase = ResetPhase::Complete;
                }
            },
            ResetPhase::Complete => {
            },
        }
        match self.phase {
            ResetPhase::Complete => Ok(true),
            _ => Ok(false),
        }
    }
}

impl Xds110DfuDevice {
    /// Begin a configuration write. An image of any length other than the
    /// fixed 16 KiB is a programming error, refused outright before any
    /// transfer is issued.
    pub fn write_configuration(self, configuration: Vec<u8>) -> (r: Result<WriteMachine, Error>)
        requires
            self.packet_count + 18 <= u16::MAX,
        ensures
            r is Ok <==> configuration@.len() == CONFIGURATION_SIZE,
            r matches Err(e) ==> e == Error::InvalidConfigurationLength,
            r matches Ok(m) ==> m.phase is SetWriteCommand && m.seq == self.packet_count
                && m.offset == 0 && m.image@ == configuration@ && m.wf(),
    {
        if configuration.len() != CONFIGURATION_SIZE {
            return Err(Error::InvalidConfigurationLength);
        }
        Ok(
            WriteMachine {
                phase: WritePhase::SetWriteCommand,
                seq: self.packet_count,
                offset: 0,
                image: configuration,
            },
        )
    }

    /// Begin the terminal reset. Consumes the session for good.
    pub fn reset(self) -> (m: ResetMachine)
        requires
            self.packet_count + 1 <= u16::MAX,
        ensures
            m.phase is PollBeforeReset,
            m.seq == self.packet_count,
            m.wf(),
    {
        ResetMachine { phase: ResetPhase::PollBeforeReset, seq: self.packet_count }
    }
}

/// The concatenation of the first `k` write chunks of an image.
pub open spec fn chunk_concat(image: Seq<u8>, k: int) -> Seq<u8>
    decreases k,
{
    if k <= 0 {
        Seq::<u8>::empty()
    } else {
        chunk_concat(image, k - 1) + image.subrange(
            (k - 1) * (CHUNK_SIZE as int),
            k * (CHUNK_SIZE as int),
        )
    }
}

proof fn lemma_chunk_concat_prefix(image: Seq<u8>, k: int)
    requires
        0 <= k,
        k * (CHUNK_SIZE as int) <= image.len(),
    ensures
        chunk_concat(image, k) == image.subrange(0, k * (CHUNK_SIZE as int)),
    decreases k,
{
    if k <= 0 {
        assert(chunk_concat(image, 0) =~= image.subrange(0, 0));
    } else {
        lemma_chunk_concat_prefix(image, k - 1);
        assert(image.subrange(0, (k - 1) * (CHUNK_SIZE as int)) + image.subrange(
            (k - 1) * (CHUNK_SIZE as int),
            k * (CHUNK_SIZE as int),
        ) =~= image.subrange(0, k * (CHUNK_SIZE as int)));
    }
}

/// The sixteen chunk payloads of a configuration write, taken in order,
/// reassemble the image exactly: a write transmits its image to the device
/// verbatim. So a read-then-write round trip of an unmodified image sends
/// back precisely the bytes that were read, the mode field among them.
pub proof fn lemma_write_transmits_image(image: Seq<u8>)
    requires
        image.len() == CONFIGURATION_SIZE,
    ensures
        chunk_concat(image, 16) == image,
{
    lemma_chunk_concat_prefix(image, 16);
    assert(image.subrange(0, 16 * (CHUNK_SIZE as int)) =~= image);
}

} // verus!
