use vstd::prelude::*;

verus! {

/// Every way a firmware download can fail.
#[derive(Clone, Copy, Debug, PartialEq, Eq, Structural)]
pub enum FwError {
    /// Fewer bytes were available than a fixed-width wire structure needs.
    TruncatedFrame,
    /// The image ended inside a record, or before its last block.
    TruncatedImage,
    /// A bulk transfer failed or timed out.
    TransportError,
    /// The device reported a CRC error for the block just sent.
    DeviceCrcError,
    /// The device acknowledged a sequence number other than the one sent.
    SequenceMismatch { got: u32, expected: u32 },
    /// Every attempt allowed for one block failed at the transport.
    ExhaustedRetries,
    /// The product id names no supported chip.
    UnsupportedDevice { product_id: u16 },
}

impl FwError {
    /// A one-line description of the error.
    pub fn message(&self) -> String {
        match self {
            FwError::TruncatedFrame => String::from_str("frame shorter than its fixed width"),
            FwError::TruncatedImage => String::from_str("firmware image is truncated"),
            FwError::TransportError => String::from_str("USB bulk transfer failed"),
            FwError::DeviceCrcError => String::from_str("FW received block with CRC error"),
            FwError::SequenceMismatch { .. } => String::from_str("mismatch in sequence number"),
            FwError::ExhaustedRetries => String::from_str("retries exhausted for one block"),
            FwError::UnsupportedDevice { .. } => String::from_str("unhandled marvell device"),
        }
    }
}

} // verus!
