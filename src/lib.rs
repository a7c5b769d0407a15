// Firmware download for Marvell USB wireless chips: the wire codec, the
// firmware image reader, the chip-revision probe, and the block transfer
// engine, a state machine whose caller performs the USB bulk transfers.
use vstd::prelude::*;

pub mod codec;
pub mod device;
pub mod engine;
pub mod error;
pub mod image;
pub mod probe;

verus! {

/// Number of bytes a firmware block occupies on the wire: the 16-byte
/// header, the 4-byte sequence number, and `data_len` payload bytes.
pub fn fw_data_xmit_size(data_len: u32) -> (r: u32)
    requires
        data_len as int + 20 <= u32::MAX,
    ensures
        r as int == 16 + data_len as int + 4,
{
    16u32 + data_len + 4u32
}

} // verus!
