use vstd::prelude::*;
use crate::error::FwError;

verus! {

/// Width of an encoded `FrameHeader`.
pub const FRAME_HEADER_LEN: usize = 16;
/// Width of an encoded `DataBlock` without its payload.
pub const DATA_BLOCK_HEADER_LEN: usize = 20;
/// Width of an encoded `SyncAck`.
pub const SYNC_ACK_LEN: usize = 8;
/// Width of an encoded `ChipRevResponse`.
pub const CHIP_REV_RESPONSE_LEN: usize = 16;

/// The four little-endian bytes of `x`.
pub open spec fn le_bytes(x: u32) -> Seq<u8> {
    seq![x as u8, (x >> 8) as u8, (x >> 16) as u8, (x >> 24) as u8]
}

/// The little-endian `u32` stored in `b` at offset `i`.
pub open spec fn le_value(b: Seq<u8>, i: int) -> u32 {
    (b[i] as u32) | ((b[i + 1] as u32) << 8) | ((b[i + 2] as u32) << 16) | ((b[i + 3] as u32) << 24)
}

/// Reading back the four little-endian bytes of `x` gives `x`.
pub proof fn lemma_le_round_trip(b: Seq<u8>, i: int, x: u32)
    requires
        0 <= i,
        i + 4 <= b.len(),
        b.subrange(i, i + 4) == le_bytes(x),
    ensures
        le_value(b, i) == x,
{
    assert(b[i] == b.subrange(i, i + 4)[0]);
    assert(b[i + 1] == b.subrange(i, i + 4)[1]);
    assert(b[i + 2] == b.subrange(i, i + 4)[2]);
    assert(b[i + 3] == b.subrange(i, i + 4)[3]);
    assert(((x as u8) as u32) | ((((x >> 8) as u8) as u32) << 8) | ((((x >> 16) as u8) as u32)
        << 16) | ((((x >> 24) as u8) as u32) << 24) == x) by (bit_vector);
}

/// Appends `x` to `out` in little-endian order.
pub fn push_le(out: &mut Vec<u8>, x: u32)
    ensures
        final(out)@ == old(out)@ + le_bytes(x),
{
    out.push(x as u8);
    out.push((x >> 8) as u8);
    out.push((x >> 16) as u8);
    out.push((x >> 24) as u8);
    assert(final(out)@ =~= old(out)@ + le_bytes(x));
}

/// Reads the little-endian `u32` at offset `i` of `b`.
pub fn read_le(b: &[u8], i: usize) -> (r: u32)
    requires
        i + 4 <= b@.len(),
    ensures
        r == le_value(b@, i as int),
{
    let _len = b.len();
    (b[i] as u32) | ((b[i + 1] as u32) << 8) | ((b[i + 2] as u32) << 16) | ((b[i + 3] as u32) << 24)
}

/// Header of one firmware record, as stored in the image and sent to the device.
#[derive(Clone, Copy, Debug, PartialEq, Eq, Structural)]
pub struct FrameHeader {
    pub download_command: u32,
    pub base_address: u32,
    pub data_length: u32,
    pub crc: u32,
}

impl FrameHeader {
    pub open spec fn spec_encode(self) -> Seq<u8> {
        le_bytes(self.download_command) + le_bytes(self.base_address) + le_bytes(self.data_length)
            + le_bytes(self.crc)
    }

    /// The header stored in `b` at offset `at`.
    pub open spec fn spec_decode_at(b: Seq<u8>, at: int) -> FrameHeader {
        FrameHeader {
            download_command: le_value(b, at),
            base_address: le_value(b, at + 4),
            data_length: le_value(b, at + 8),
            crc: le_value(b, at + 12),
        }
    }

    pub open spec fn spec_decode(b: Seq<u8>) -> FrameHeader {
        Self::spec_decode_at(b, 0)
    }

    pub fn encode_into(&self, out: &mut Vec<u8>)
        ensures
            final(out)@ == old(out)@ + self.spec_encode(),
    {
        push_le(out, self.download_command);
        push_le(out, self.base_address);
        push_le(out, self.data_length);
        push_le(out, self.crc);
        assert(final(out)@ =~= old(out)@ + self.spec_encode());
    }

    pub fn encode(&self) -> (r: Vec<u8>)
        ensures
            r@ == self.spec_encode(),
    {
        let mut out: Vec<u8> = Vec::new();
        self.encode_into(&mut out);
        assert(out@ =~= self.spec_encode());
        out
    }

    /// Decodes the header stored at offset `at`, which must lie inside `b`.
    pub fn decode_at(b: &[u8], at: usize) -> (r: FrameHeader)
        requires
            at + FRAME_HEADER_LEN <= b@.len(),
        ensures
            r == Self::spec_decode_at(b@, at as int),
    {
        let _len = b.len();
        FrameHeader {
            download_command: read_le(b, at),
            base_address: read_le(b, at + 4),
            data_length: read_le(b, at + 8),
            crc: read_le(b, at + 12),
        }
    }

    /// Decodes a header from the start of `b`.
    pub fn decode(b: &[u8]) -> (r: Result<FrameHeader, FwError>)
        ensures
            b@.len() >= FRAME_HEADER_LEN ==> r == Ok::<FrameHeader, FwError>(Self::spec_decode(b@)),
            b@.len() < FRAME_HEADER_LEN ==> r == Err::<FrameHeader, FwError>(FwError::TruncatedFrame),
    {
        if b.len() < FRAME_HEADER_LEN {
            Err(FwError::TruncatedFrame)
        } else {
            Ok(Self::decode_at(b, 0))
        }
    }
}

/// Decoding an encoded header gives the header back.
pub proof fn lemma_frame_header_round_trip(h: FrameHeader)
    ensures
        h.spec_encode().len() == FRAME_HEADER_LEN,
        FrameHeader::spec_decode(h.spec_encode()) == h,
{
    let b = h.spec_encode();
    assert(b.subrange(0, 4) =~= le_bytes(h.download_command));
    assert(b.subrange(4, 8) =~= le_bytes(h.base_address));
    assert(b.subrange(8, 12) =~= le_bytes(h.data_length));
    assert(b.subrange(12, 16) =~= le_bytes(h.crc));
    lemma_le_round_trip(b, 0, h.download_command);
    lemma_le_round_trip(b, 4, h.base_address);
    lemma_le_round_trip(b, 8, h.data_length);
    lemma_le_round_trip(b, 12, h.crc);
}

/// The device's answer to one data block.
#[derive(Clone, Copy, Debug, PartialEq, Eq, Structural)]
pub struct SyncAck {
    /// Non-zero when the device found a CRC error in the block.
    pub status_command: u32,
    /// The sequence number of the block being answered.
    pub sequence_number: u32,
}

impl SyncAck {
    pub open spec fn spec_encode(self) -> Seq<u8> {
        le_bytes(self.status_command) + le_bytes(self.sequence_number)
    }

    pub open spec fn spec_decode(b: Seq<u8>) -> SyncAck {
        SyncAck { status_command: le_value(b, 0), sequence_number: le_value(b, 4) }
    }

    pub fn encode(&self) -> (r: Vec<u8>)
        ensures
            r@ == self.spec_encode(),
    {
        let mut out: Vec<u8> = Vec::new();
        push_le(&mut out, self.status_command);
        push_le(&mut out, self.sequence_number);
        assert(out@ =~= self.spec_encode());
        out
    }

    /// Decodes an acknowledgement from the start of `b`; bytes past the
    /// first eight are ignored.
    pub fn decode(b: &[u8]) -> (r: Result<SyncAck, FwError>)
        ensures
            b@.len() >= SYNC_ACK_LEN ==> r == Ok::<SyncAck, FwError>(Self::spec_decode(b@)),
            b@.len() < SYNC_ACK_LEN ==> r == Err::<SyncAck, FwError>(FwError::TruncatedFrame),
    {
        if b.len() < SYNC_ACK_LEN {
            Err(FwError::TruncatedFrame)
        } else {
            Ok(SyncAck { status_command: read_le(b, 0), sequence_number: read_le(b, 4) })
        }
    }
}

/// Decoding an encoded acknowledgement gives it back.
pub proof fn lemma_sync_ack_round_trip(a: SyncAck)
    ensures
        a.spec_encode().len() == SYNC_ACK_LEN,
        SyncAck::spec_decode(a.spec_encode()) == a,
{
    let b = a.spec_encode();
    assert(b.subrange(0, 4) =~= le_bytes(a.status_command));
    assert(b.subrange(4, 8) =~= le_bytes(a.sequence_number));
    lemma_le_round_trip(b, 0, a.status_command);
    lemma_le_round_trip(b, 4, a.sequence_number);
}

/// The device's answer to the chip-revision probe.
#[derive(Clone, Copy, Debug, PartialEq, Eq, Structural)]
pub struct ChipRevResponse {
    pub ack_marker: u32,
    pub sequence: u32,
    /// Equals the extended-response magic when `chip_revision` is meaningful.
    pub extend_magic: u32,
    pub chip_revision: u32,
}

impl ChipRevResponse {
    pub open spec fn spec_encode(self) -> Seq<u8> {
        le_bytes(self.ack_marker) + le_bytes(self.sequence) + le_bytes(self.extend_magic)
            + le_bytes(self.chip_revision)
    }

    pub open spec fn spec_decode(b: Seq<u8>) -> ChipRevResponse {
        ChipRevResponse {
            ack_marker: le_value(b, 0),
            sequence: le_value(b, 4),
            extend_magic: le_value(b, 8),
            chip_revision: le_value(b, 12),
        }
    }

    pub fn encode(&self) -> (r: Vec<u8>)
        ensures
            r@ == self.spec_encode(),
    {
        let mut out: Vec<u8> = Vec::new();
        push_le(&mut out, self.ack_marker);
        push_le(&mut out, self.sequence);
        push_le(&mut out, self.extend_magic);
        push_le(&mut out, self.chip_revision);
        assert(out@ =~= self.spec_encode());
        out
    }

    /// Decodes a response from the start of `b`; bytes past the first
    /// sixteen are ignored.
    pub fn decode(b: &[u8]) -> (r: Result<ChipRevResponse, FwError>)
        ensures
            b@.len() >= CHIP_REV_RESPONSE_LEN ==> r == Ok::<ChipRevResponse, FwError>(
                Self::spec_decode(b@),
            ),
            b@.len() < CHIP_REV_RESPONSE_LEN ==> r == Err::<ChipRevResponse, FwError>(
                FwError::TruncatedFrame,
            ),
    {
        if b.len() < CHIP_REV_RESPONSE_LEN {
            Err(FwError::TruncatedFrame)
        } else {
            Ok(
                ChipRevResponse {
                    ack_marker: read_le(b, 0),
                    sequence: read_le(b, 4),
                    extend_magic: read_le(b, 8),
                    chip_revision: read_le(b, 12),
                },
            )
        }
    }
}

/// Decoding an encoded chip-revision response gives it back.
pub proof fn lemma_chip_rev_response_round_trip(c: ChipRevResponse)
    ensures
        c.spec_encode().len() == CHIP_REV_RESPONSE_LEN,
        ChipRevResponse::spec_decode(c.spec_encode()) == c,
{
    let b = c.spec_encode();
    assert(b.subrange(0, 4) =~= le_bytes(c.ack_marker));
    assert(b.subrange(4, 8) =~= le_bytes(c.sequence));
    assert(b.subrange(8, 12) =~= le_bytes(c.extend_magic));
    assert(b.subrange(12, 16) =~= le_bytes(c.chip_revision));
    lemma_le_round_trip(b, 0, c.ack_marker);
    lemma_le_round_trip(b, 4, c.sequence);
    lemma_le_round_trip(b, 8, c.extend_magic);
    lemma_le_round_trip(b, 12, c.chip_revision);
}

/// One firmware block as sent to the device: header, sequence number, and
/// the payload appended raw.
#[derive(Debug, PartialEq, Eq)]
pub struct DataBlock {
    pub header: FrameHeader,
    pub sequence_number: u32,
    pub payload: Vec<u8>,
}

/// The bytes of a data block with the given parts.
pub open spec fn block_bytes(header: FrameHeader, sequence_number: u32, payload: Seq<u8>) -> Seq<u8> {
    header.spec_encode() + le_bytes(sequence_number) + payload
}

impl DataBlock {
    pub open spec fn spec_encode(&self) -> Seq<u8> {
        block_bytes(self.header, self.sequence_number, self.payload@)
    }

    /// Header, sequence number and payload of the block stored in `b`.
    pub open spec fn spec_decode(b: Seq<u8>) -> (FrameHeader, u32, Seq<u8>) {
        (
            FrameHeader::spec_decode(b),
            le_value(b, FRAME_HEADER_LEN as int),
            b.subrange(DATA_BLOCK_HEADER_LEN as int, b.len() as int),
        )
    }

    pub fn encode(&self) -> (r: Vec<u8>)
        ensures
            r@ == self.spec_encode(),
    {
        encode_block(&self.header, self.sequence_number, self.payload.as_slice())
    }

    /// Decodes a block; everything after the sequence number is payload.
    pub fn decode(b: &[u8]) -> (r: Result<DataBlock, FwError>)
        ensures
            b@.len() >= DATA_BLOCK_HEADER_LEN ==> r is Ok && (r->Ok_0.header, r->Ok_0.sequence_number, r->Ok_0.payload@) == Self::spec_decode(b@),
            b@.len() < DATA_BLOCK_HEADER_LEN ==> r == Err::<DataBlock, FwError>(FwError::TruncatedFrame),
    {
        if b.len() < DATA_BLOCK_HEADER_LEN {
            return Err(FwError::TruncatedFrame);
        }
        let header = FrameHeader::decode_at(b, 0);
        let sequence_number = read_le(b, FRAME_HEADER_LEN);
        let mut payload: Vec<u8> = Vec::new();
        let mut i: usize = DATA_BLOCK_HEADER_LEN;
        while i < b.len()
            invariant
                DATA_BLOCK_HEADER_LEN <= i <= b@.len(),
                payload@ == b@.subrange(DATA_BLOCK_HEADER_LEN as int, i as int),
            decreases b@.len() - i,
        {
            payload.push(b[i]);
            i = i + 1;
            assert(payload@ =~= b@.subrange(DATA_BLOCK_HEADER_LEN as int, i as int));
        }
        Ok(DataBlock { header, sequence_number, payload })
    }
}

/// Builds the bytes of a data block: the encoded header, the sequence
/// number, then the payload.
pub fn encode_block(header: &FrameHeader, sequence_number: u32, payload: &[u8]) -> (r: Vec<u8>)
    ensures
        r@ == block_bytes(*header, sequence_number, payload@),
{
    let mut out: Vec<u8> = Vec::new();
    header.encode_into(&mut out);
    push_le(&mut out, sequence_number);
    let mut i: usize = 0;
    while i < payload.len()
        invariant
            i <= payload@.len(),
            out@ == header.spec_encode() + le_bytes(sequence_number) + payload@.subrange(0, i as int),
        decreases payload@.len() - i,
    {
        out.push(payload[i]);
        i = i + 1;
        assert(out@ =~= header.spec_encode() + le_bytes(sequence_number) + payload@.subrange(0, i as int));
    }
    assert(payload@.subrange(0, i as int) =~= payload@);
    out
}

/// Decoding an encoded data block gives back its header, sequence number
/// and payload.
pub proof fn lemma_data_block_round_trip(header: FrameHeader, sequence_number: u32, payload: Seq<u8>)
    ensures
        block_bytes(header, sequence_number, payload).len() == DATA_BLOCK_HEADER_LEN + payload.len(),
        DataBlock::spec_decode(block_bytes(header, sequence_number, payload)) == (header, sequence_number, payload),
{
    let b = block_bytes(header, sequence_number, payload);
    assert(b.subrange(0, 4) =~= le_bytes(header.download_command));
    assert(b.subrange(4, 8) =~= le_bytes(header.base_address));
    assert(b.subrange(8, 12) =~= le_bytes(header.data_length));
    assert(b.subrange(12, 16) =~= le_bytes(header.crc));
    assert(b.subrange(16, 20) =~= le_bytes(sequence_number));
    assert(b.subrange(20, b.len() as int) =~= payload);
    lemma_le_round_trip(b, 0, header.download_command);
    lemma_le_round_trip(b, 4, header.base_address);
    lemma_le_round_trip(b, 8, header.data_length);
    lemma_le_round_trip(b, 12, header.crc);
    lemma_le_round_trip(b, 16, sequence_number);
}

} // verus!
