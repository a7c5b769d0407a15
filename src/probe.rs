use vstd::prelude::*;
use crate::codec::{ChipRevResponse, CHIP_REV_RESPONSE_LEN};
use crate::error::FwError;

verus! {

/// Size of the zero-filled probe request.
pub const CHIP_REV_TX_BUF_SIZE: usize = 16;
/// Size of the buffer the probe response is read into.
pub const CHIP_REV_RX_BUF_SIZE: usize = 2048;

/// High word of the extended-response magic.
pub const EXTEND_HDR: u32 = 0xAB95;
/// Low word of the extended-response magic.
pub const EXTEND_V1: u32 = 0x0001;
/// The value `extend_magic` holds when the response carries a revision.
pub const EXTEND_MAGIC: u32 = 0xAB95_0001;

/// Revision assumed when the device does not report one.
pub const USB8797_A0: u32 = 0x0000_0000;
/// Revision id of the B0 stepping.
pub const USB8797_B0: u32 = 0x0380_0010;

/// Outcome of the chip-revision probe.
#[derive(Clone, Copy, Debug, PartialEq, Eq, Structural)]
pub struct ChipRev {
    pub revision: u32,
    /// Whether `revision` came from the device rather than the default.
    pub from_response: bool,
}

/// The revision a response stands for.
pub open spec fn spec_chip_rev(resp: ChipRevResponse) -> ChipRev {
    if resp.extend_magic == EXTEND_MAGIC {
        ChipRev { revision: resp.chip_revision, from_response: true }
    } else {
        ChipRev { revision: USB8797_A0, from_response: false }
    }
}

/// The magic is the two extension words side by side.
pub proof fn lemma_extend_magic_words()
    ensures
        EXTEND_MAGIC == (EXTEND_HDR << 16) | EXTEND_V1,
{
    assert((0xAB95u32 << 16) | 0x0001u32 == 0xAB95_0001u32) by (bit_vector);
}

/// The probe request: sixteen zero bytes.
pub fn chip_rev_request() -> (r: Vec<u8>)
    ensures
        r@ == Seq::new(CHIP_REV_TX_BUF_SIZE as nat, |i: int| 0u8),
{
    let mut out: Vec<u8> = Vec::new();
    let mut i: usize = 0;
    while i < CHIP_REV_TX_BUF_SIZE
        invariant
            i <= CHIP_REV_TX_BUF_SIZE,
            out@ == Seq::new(i as nat, |j: int| 0u8),
        decreases CHIP_REV_TX_BUF_SIZE - i,
    {
        out.push(0u8);
        i = i + 1;
        assert(out@ =~= Seq::new(i as nat, |j: int| 0u8));
    }
    out
}

/// The revision a decoded response stands for: the reported one when the
/// magic matches, the default otherwise.
pub fn chip_rev_of(resp: &ChipRevResponse) -> (r: ChipRev)
    ensures
        r == spec_chip_rev(*resp),
{
    if resp.extend_magic == EXTEND_MAGIC {
        ChipRev { revision: resp.chip_revision, from_response: true }
    } else {
        ChipRev { revision: USB8797_A0, from_response: false }
    }
}

/// Decodes the bytes read back from the probe and gives the revision.
pub fn chip_rev_from_bytes(buf: &[u8]) -> (r: Result<ChipRev, FwError>)
    ensures
        buf@.len() >= CHIP_REV_RESPONSE_LEN ==> r == Ok::<ChipRev, FwError>(
            spec_chip_rev(ChipRevResponse::spec_decode(buf@)),
        ),
        buf@.len() < CHIP_REV_RESPONSE_LEN ==> r == Err::<ChipRev, FwError>(FwError::TruncatedFrame),
{
    match ChipRevResponse::decode(buf) {
        Ok(resp) => Ok(chip_rev_of(&resp)),
        Err(e) => Err(e),
    }
}

/// A response whose magic does not match never yields its own revision
/// field: the result is the default revision.
pub proof fn lemma_mismatched_magic_gives_default(resp: ChipRevResponse)
    requires
        resp.extend_magic != EXTEND_MAGIC,
    ensures
        spec_chip_rev(resp).revision == USB8797_A0,
        !spec_chip_rev(resp).from_response,
{
}

} // verus!
