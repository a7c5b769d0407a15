use vstd::prelude::*;
use crate::codec::{FrameHeader, FRAME_HEADER_LEN};
use crate::error::FwError;

verus! {

/// Download command of a record that carries no payload, whatever its
/// `data_length` says.
pub const FW_CMD_7: u32 = 0x0000_0007;

/// Number of payload bytes that follow a record's header in the image.
pub open spec fn payload_len(h: FrameHeader) -> nat {
    if h.download_command == FW_CMD_7 {
        0
    } else {
        h.data_length as nat
    }
}

/// The record that starts at offset `pos` of `image`: its header and its
/// payload, or `None` where the image ends before the record does.
pub open spec fn record_at(image: Seq<u8>, pos: int) -> Option<(FrameHeader, Seq<u8>)> {
    if pos + FRAME_HEADER_LEN > image.len() {
        None
    } else {
        let h = FrameHeader::spec_decode_at(image, pos);
        let start = pos + FRAME_HEADER_LEN;
        if start + payload_len(h) > image.len() {
            None
        } else {
            Some((h, image.subrange(start, start + payload_len(h))))
        }
    }
}

/// Offset of the byte after the record that starts at `pos`.
pub open spec fn record_end(image: Seq<u8>, pos: int) -> int {
    pos + FRAME_HEADER_LEN + payload_len(FrameHeader::spec_decode_at(image, pos))
}

/// Effective payload length of a record with header `h`.
pub fn effective_payload_len(h: &FrameHeader) -> (r: u32)
    ensures
        r as nat == payload_len(*h),
{
    if h.download_command == FW_CMD_7 {
        0
    } else {
        h.data_length
    }
}

/// One record of a firmware image.
#[derive(Debug, PartialEq, Eq)]
pub struct Record {
    pub header: FrameHeader,
    pub payload: Vec<u8>,
}

/// A firmware image with a read cursor that only moves forward.
pub struct FirmwareImage {
    bytes: Vec<u8>,
    cursor: usize,
}

impl FirmwareImage {
    /// The whole image.
    pub closed spec fn bytes(&self) -> Seq<u8> {
        self.bytes@
    }

    /// Offset of the next unread byte.
    pub closed spec fn cursor(&self) -> int {
        self.cursor as int
    }

    pub open spec fn wf(&self) -> bool {
        0 <= self.cursor() <= self.bytes().len()
    }

    pub fn new(bytes: Vec<u8>) -> (r: FirmwareImage)
        ensures
            r.wf(),
            r.bytes() == bytes@,
            r.cursor() == 0,
    {
        FirmwareImage { bytes, cursor: 0 }
    }

    /// Whether the cursor has reached the end of the image.
    pub fn is_exhausted(&self) -> (r: bool)
        requires
            self.wf(),
        ensures
            r == (self.cursor() == self.bytes().len()),
    {
        self.cursor == self.bytes.len()
    }

    /// Reads the record at the cursor and moves the cursor past it.
    ///
    /// Returns `Ok(None)` at the end of the image and `TruncatedImage`, with
    /// the cursor left where it was, where the record is cut short.
    pub fn next_record(&mut self) -> (r: Result<Option<Record>, FwError>)
        requires
            old(self).wf(),
        ensures
            final(self).wf(),
            final(self).bytes() == old(self).bytes(),
            old(self).cursor() == old(self).bytes().len() ==> r == Ok::<Option<Record>, FwError>(None)
                && final(self).cursor() == old(self).cursor(),
            old(self).cursor() < old(self).bytes().len() ==> match record_at(
                old(self).bytes(),
                old(self).cursor(),
            ) {
                None => r == Err::<Option<Record>, FwError>(FwError::TruncatedImage)
                    && final(self).cursor() == old(self).cursor(),
                Some((h, p)) => r is Ok && r->Ok_0 is Some && r->Ok_0->Some_0.header == h
                    && r->Ok_0->Some_0.payload@ == p && final(self).cursor() == record_end(
                    old(self).bytes(),
                    old(self).cursor(),
                ),
            },
    {
        let len = self.bytes.len();
        if self.cursor == len {
            return Ok(None);
        }
        if len - self.cursor < FRAME_HEADER_LEN {
            return Err(FwError::TruncatedImage);
        }
        let header = FrameHeader::decode_at(self.bytes.as_slice(), self.cursor);
        let start = self.cursor + FRAME_HEADER_LEN;
        let n = effective_payload_len(&header);
        if (len - start) < n as usize {
            return Err(FwError::TruncatedImage);
        }
        let end = start + n as usize;
        let mut payload: Vec<u8> = Vec::new();
        let mut i: usize = start;
        while i < end
            invariant
                start <= i <= end,
                end <= len,
                len == self.bytes@.len(),
                payload@ == self.bytes@.subrange(start as int, i as int),
            decreases end - i,
        {
            payload.push(self.bytes[i]);
            i = i + 1;
            assert(payload@ =~= self.bytes@.subrange(start as int, i as int));
        }
        self.cursor = end;
        Ok(Some(Record { header, payload }))
    }
}

} // verus!
