use vstd::prelude::*;
use crate::codec::{
    block_bytes, encode_block, lemma_data_block_round_trip, FrameHeader, SyncAck,
    DATA_BLOCK_HEADER_LEN, FRAME_HEADER_LEN,
};
use crate::error::FwError;
use crate::image::{payload_len, record_at, record_end, FirmwareImage, FW_CMD_7};

verus! {

/// Attempts allowed for one block, shared by send and receive failures.
pub const MAX_FW_RETRY: u8 = 3;

/// Download command that marks the final block of an image.
pub const FW_HAS_LAST_BLOCK: u32 = 0x0000_0004;

/// Largest image the engine takes: every block consumes at least one
/// header, and block sequence numbers are 32-bit on the wire.
pub open spec fn image_len_fits(len: nat) -> bool {
    len <= FRAME_HEADER_LEN * (u32::MAX as nat)
}

/// Where the engine stands in the transfer.
#[derive(Clone, Copy, Debug, PartialEq, Eq, Structural)]
pub enum Phase {
    /// Created; no record read yet.
    Ready,
    /// A block is loaded and must be written to the bulk-out endpoint.
    Sending,
    /// The block was written; its acknowledgement must be read.
    AwaitingAck,
    /// The last block was acknowledged.
    Done,
    /// The transfer aborted.
    Failed(FwError),
}

/// What the driver of the engine must do next.
#[derive(Debug, PartialEq, Eq)]
pub enum Action {
    /// Write these bytes as one bulk-out transfer.
    Send(Vec<u8>),
    /// Wait for the retry backoff, then write these bytes as one bulk-out
    /// transfer.
    BackoffThenSend(Vec<u8>),
    /// Read one acknowledgement from the bulk-in endpoint.
    ReceiveAck,
    /// The transfer completed.
    Done,
    /// The transfer aborted with this error.
    Failed(FwError),
}

/// Abstract state of an `Engine`.
pub struct EngineState {
    pub image: Seq<u8>,
    pub cursor: int,
    pub seq: nat,
    pub retries: nat,
    pub phase: Phase,
    /// Header of the block in flight.
    pub header: FrameHeader,
    /// Payload of the block in flight.
    pub payload: Seq<u8>,
}

impl EngineState {
    pub open spec fn is_active(self) -> bool {
        self.phase is Sending || self.phase is AwaitingAck
    }

    pub open spec fn inv(self) -> bool {
        &&& 0 <= self.cursor <= self.image.len()
        &&& image_len_fits(self.image.len())
        &&& self.retries <= MAX_FW_RETRY
        &&& self.phase is Ready ==> self.cursor == 0 && self.seq == 0 && self.retries
            == MAX_FW_RETRY
        &&& self.is_active() ==> 1 <= self.retries && FRAME_HEADER_LEN * (self.seq + 1)
            <= self.cursor
    }

    /// The bytes of the block in flight.
    pub open spec fn frame(self) -> Seq<u8> {
        block_bytes(self.header, self.seq as u32, self.payload)
    }
}

/// The state in which a transfer of `image` begins.
pub open spec fn initial_state(image: Seq<u8>) -> EngineState {
    EngineState {
        image,
        cursor: 0,
        seq: 0,
        retries: MAX_FW_RETRY as nat,
        phase: Phase::Ready,
        header: FrameHeader { download_command: 0, base_address: 0, data_length: 0, crc: 0 },
        payload: Seq::empty(),
    }
}

/// Reads the record at the cursor as the block numbered `s.seq`, with a
/// full retry budget; an image that ends first aborts the transfer.
pub open spec fn load(s: EngineState) -> EngineState {
    match record_at(s.image, s.cursor) {
        None => EngineState { phase: Phase::Failed(FwError::TruncatedImage), ..s },
        Some((h, p)) => EngineState {
            cursor: record_end(s.image, s.cursor),
            retries: MAX_FW_RETRY as nat,
            phase: Phase::Sending,
            header: h,
            payload: p,
            ..s
        },
    }
}

/// One failed bulk transfer: the budget shrinks by one, and the transfer
/// aborts when nothing is left of it.
pub open spec fn after_transport_error(s: EngineState) -> EngineState {
    if s.retries <= 1 {
        EngineState { retries: 0, phase: Phase::Failed(FwError::ExhaustedRetries), ..s }
    } else {
        EngineState { retries: (s.retries - 1) as nat, phase: Phase::Sending, ..s }
    }
}

/// The block was written; its acknowledgement is awaited.
pub open spec fn after_sent(s: EngineState) -> EngineState {
    EngineState { phase: Phase::AwaitingAck, ..s }
}

/// Classifies the acknowledgement of the block in flight.
pub open spec fn after_ack(s: EngineState, ack: SyncAck) -> EngineState {
    if ack.status_command > 0 {
        EngineState { phase: Phase::Failed(FwError::DeviceCrcError), ..s }
    } else if ack.sequence_number as nat != s.seq {
        EngineState {
            phase: Phase::Failed(
                FwError::SequenceMismatch { got: ack.sequence_number, expected: s.seq as u32 },
            ),
            ..s
        }
    } else if s.header.download_command == FW_HAS_LAST_BLOCK {
        EngineState { phase: Phase::Done, ..s }
    } else {
        load(EngineState { seq: s.seq + 1, ..s })
    }
}

/// `a` is what the driver must do in state `s`, with no backoff first.
pub open spec fn announces(a: Action, s: EngineState) -> bool {
    match s.phase {
        Phase::Sending => a is Send && a->Send_0@ == s.frame(),
        Phase::AwaitingAck => a is ReceiveAck,
        Phase::Done => a is Done,
        Phase::Failed(e) => a is Failed && a->Failed_0 == e,
        Phase::Ready => false,
    }
}

/// The block-by-block firmware transfer, as a state machine: each method
/// takes the outcome of the last action and returns the next one.
pub struct Engine {
    image: FirmwareImage,
    seq: u32,
    retries: u8,
    phase: Phase,
    header: FrameHeader,
    payload: Vec<u8>,
}

impl View for Engine {
    type V = EngineState;

    closed spec fn view(&self) -> EngineState {
        EngineState {
            image: self.image.bytes(),
            cursor: self.image.cursor(),
            seq: self.seq as nat,
            retries: self.retries as nat,
            phase: self.phase,
            header: self.header,
            payload: self.payload@,
        }
    }
}

impl Engine {
    pub open spec fn wf(&self) -> bool {
        self@.inv()
    }

    /// Whether an image of `len` bytes can be handed to `new`.
    pub fn image_len_ok(len: usize) -> (r: bool)
        ensures
            r == image_len_fits(len as nat),
    {
        len as u64 <= 16 * (u32::MAX as u64)
    }

    pub fn new(image: Vec<u8>) -> (r: Engine)
        requires
            image_len_fits(image@.len()),
        ensures
            r.wf(),
            r@ == initial_state(image@),
    {
        Engine {
            image: FirmwareImage::new(image),
            seq: 0,
            retries: MAX_FW_RETRY,
            phase: Phase::Ready,
            header: FrameHeader { download_command: 0, base_address: 0, data_length: 0, crc: 0 },
            payload: Vec::new(),
        }
    }

    /// The sequence number of the block in flight.
    pub fn sequence_number(&self) -> (r: u32)
        ensures
            r as nat == self@.seq,
    {
        self.seq
    }

    /// Attempts left for the block in flight.
    pub fn retries_left(&self) -> (r: u8)
        ensures
            r as nat == self@.retries,
    {
        self.retries
    }

    pub fn phase(&self) -> (r: Phase)
        ensures
            r == self@.phase,
    {
        self.phase
    }

    fn load_next(&mut self) -> (r: Action)
        requires
            0 <= old(self)@.cursor <= old(self)@.image.len(),
            image_len_fits(old(self)@.image.len()),
            old(self)@.retries <= MAX_FW_RETRY,
            FRAME_HEADER_LEN * old(self)@.seq <= old(self)@.cursor,
        ensures
            final(self).wf(),
            final(self)@ == load(old(self)@),
            announces(r, final(self)@),
    {
        match self.image.next_record() {
            Ok(Some(rec)) => {
                self.header = rec.header;
                self.payload = rec.payload;
                self.retries = MAX_FW_RETRY;
                self.phase = Phase::Sending;
                Action::Send(encode_block(&self.header, self.seq, self.payload.as_slice()))
            },
            _ => {
                self.phase = Phase::Failed(FwError::TruncatedImage);
                Action::Failed(FwError::TruncatedImage)
            },
        }
    }

    /// Reads the first record and asks for it to be sent.
    pub fn start(&mut self) -> (r: Action)
        requires
            old(self).wf(),
            old(self)@.phase is Ready,
        ensures
            final(self).wf(),
            final(self)@ == load(old(self)@),
            announces(r, final(self)@),
    {
        self.load_next()
    }

    /// The bulk-out write of the block in flight succeeded.
    pub fn on_sent(&mut self) -> (r: Action)
        requires
            old(self).wf(),
            old(self)@.phase is Sending,
        ensures
            final(self).wf(),
            final(self)@ == after_sent(old(self)@),
            r is ReceiveAck,
    {
        self.phase = Phase::AwaitingAck;
        Action::ReceiveAck
    }

    /// A bulk-out write or bulk-in read of the block in flight failed.
    pub fn on_transport_error(&mut self) -> (r: Action)
        requires
            old(self).wf(),
            old(self)@.is_active(),
        ensures
            final(self).wf(),
            final(self)@ == after_transport_error(old(self)@),
            final(self)@.phase is Sending ==> r is BackoffThenSend && r->BackoffThenSend_0@
                == final(self)@.frame(),
            final(self)@.phase is Failed ==> r == Action::Failed(FwError::ExhaustedRetries),
    {
        if self.retries <= 1 {
            self.retries = 0;
            self.phase = Phase::Failed(FwError::ExhaustedRetries);
            Action::Failed(FwError::ExhaustedRetries)
        } else {
            self.retries = self.retries - 1;
            self.phase = Phase::Sending;
            Action::BackoffThenSend(
                encode_block(&self.header, self.seq, self.payload.as_slice()),
            )
        }
    }

    /// The acknowledgement of the block in flight arrived.
    pub fn on_ack(&mut self, ack: SyncAck) -> (r: Action)
        requires
            old(self).wf(),
            old(self)@.phase is AwaitingAck,
        ensures
            final(self).wf(),
            final(self)@ == after_ack(old(self)@, ack),
            announces(r, final(self)@),
    {
        if ack.status_command > 0 {
            self.phase = Phase::Failed(FwError::DeviceCrcError);
            Action::Failed(FwError::DeviceCrcError)
        } else if ack.sequence_number != self.seq {
            let e = FwError::SequenceMismatch { got: ack.sequence_number, expected: self.seq };
            self.phase = Phase::Failed(e);
            Action::Failed(e)
        } else if self.header.download_command == FW_HAS_LAST_BLOCK {
            self.phase = Phase::Done;
            Action::Done
        } else {
            self.seq = self.seq + 1;
            self.load_next()
        }
    }

    /// The bytes read from the bulk-in endpoint for the block in flight;
    /// too few of them to hold an acknowledgement abort the transfer.
    pub fn on_ack_bytes(&mut self, buf: &[u8]) -> (r: Action)
        requires
            old(self).wf(),
            old(self)@.phase is AwaitingAck,
        ensures
            final(self).wf(),
            buf@.len() < crate::codec::SYNC_ACK_LEN ==> final(self)@ == (EngineState {
                phase: Phase::Failed(FwError::TruncatedFrame),
                ..old(self)@
            }),
            buf@.len() >= crate::codec::SYNC_ACK_LEN ==> final(self)@ == after_ack(
                old(self)@,
                SyncAck::spec_decode(buf@),
            ),
            announces(r, final(self)@),
    {
        match SyncAck::decode(buf) {
            Ok(ack) => self.on_ack(ack),
            Err(e) => {
                self.phase = Phase::Failed(e);
                Action::Failed(e)
            },
        }
    }
}

/// The state after `k` transport failures in a row.
pub open spec fn after_transport_errors(s: EngineState, k: nat) -> EngineState
    decreases k,
{
    if k == 0 {
        s
    } else {
        after_transport_error(after_transport_errors(s, (k - 1) as nat))
    }
}

/// A block in flight survives fewer transport failures in a row than the
/// attempts it has left, and is sent again unchanged after each; the
/// failure that uses up the last attempt aborts with `ExhaustedRetries`.
/// No block ever has more than `MAX_FW_RETRY` attempts.
pub proof fn lemma_retry_budget(s: EngineState)
    requires
        s.inv(),
        s.is_active(),
    ensures
        1 <= s.retries <= MAX_FW_RETRY,
        forall|k: nat|
            0 < k < s.retries ==> {
                let t = #[trigger] after_transport_errors(s, k);
                &&& t.phase is Sending
                &&& t.retries == s.retries - k
                &&& t.seq == s.seq
                &&& t.frame() == s.frame()
                &&& t.cursor == s.cursor
            },
        after_transport_errors(s, s.retries).phase == Phase::Failed(FwError::ExhaustedRetries),
{
    assert forall|k: nat| 0 < k <= s.retries implies {
        let t = #[trigger] after_transport_errors(s, k);
        &&& t.retries == s.retries - k
        &&& t.seq == s.seq
        &&& t.header == s.header
        &&& t.payload == s.payload
        &&& t.cursor == s.cursor
        &&& (k < s.retries ==> t.phase is Sending)
        &&& (k == s.retries ==> t.phase == Phase::Failed(FwError::ExhaustedRetries))
    } by {
        lemma_transport_errors_count(s, k);
    }
}

proof fn lemma_transport_errors_count(s: EngineState, k: nat)
    requires
        s.is_active(),
        1 <= s.retries,
        0 < k <= s.retries,
    ensures
        ({
            let t = after_transport_errors(s, k);
            &&& t.retries == s.retries - k
            &&& t.seq == s.seq
            &&& t.header == s.header
            &&& t.payload == s.payload
            &&& t.cursor == s.cursor
            &&& (k < s.retries ==> t.phase is Sending)
            &&& (k == s.retries ==> t.phase == Phase::Failed(FwError::ExhaustedRetries))
        }),
    decreases k,
{
    if k > 1 {
        lemma_transport_errors_count(s, (k - 1) as nat);
    } else {
        assert(after_transport_errors(s, 0) == s);
    }
}

/// An acknowledgement is accepted only when it reports no CRC error and
/// echoes the sequence number of the block in flight. On acceptance the
/// counter moves on by exactly one (unless the block was the last), and the
/// next block starts with the full retry budget; on rejection the counter
/// stays and the transfer is over, so no number is ever sent twice.
pub proof fn lemma_ack_acceptance(s: EngineState, ack: SyncAck)
    requires
        s.inv(),
        s.phase is AwaitingAck,
    ensures
        ({
            let t = after_ack(s, ack);
            let accepted = ack.status_command == 0 && ack.sequence_number as nat == s.seq;
            &&& (t.phase is Done || t.phase is Sending) ==> accepted
            &&& !accepted ==> t.phase is Failed && t.seq == s.seq
            &&& t.phase is Done ==> t.seq == s.seq
            &&& t.phase is Sending ==> t.seq == s.seq + 1 && t.retries == MAX_FW_RETRY
            &&& accepted ==> t.seq == s.seq || t.seq == s.seq + 1
            &&& t.inv()
        }),
{
}

/// A CRC error reported by the device aborts the transfer at once, however
/// many attempts the block has left.
pub proof fn lemma_crc_error_aborts(s: EngineState, ack: SyncAck)
    requires
        ack.status_command > 0,
    ensures
        after_ack(s, ack).phase == Phase::Failed(FwError::DeviceCrcError),
        after_ack(s, ack).seq == s.seq,
        after_ack(s, ack).retries == s.retries,
{
}

/// A CMD7 record is sent with an empty payload whatever its `data_length`:
/// its block is the header and the sequence number alone.
pub proof fn lemma_cmd7_block_is_bare(s: EngineState)
    requires
        s.inv(),
        load(s).phase is Sending,
        load(s).header.download_command == FW_CMD_7,
    ensures
        load(s).payload.len() == 0,
        load(s).frame().len() == DATA_BLOCK_HEADER_LEN,
{
    let r = record_at(s.image, s.cursor);
    assert(r is Some);
    let h = r->Some_0.0;
    assert(payload_len(h) == 0);
    let t = load(s);
    assert(t.payload == r->Some_0.1);
    lemma_data_block_round_trip(t.header, t.seq as u32, t.payload);
}

} // verus!
