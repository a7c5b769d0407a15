use vstd::prelude::*;
use crate::error::FwError;

verus! {

/// USB vendor id of the supported devices.
pub const MARVELL_VENDOR_ID: u16 = 0x1286;
/// Product id of the 88W8782U.
pub const PID_88W8782U: u16 = 0x2040;
/// Product id of the 88W8897.
pub const PID_88W8897: u16 = 0x2045;

/// USB bulk-out endpoint address.
pub const EP_BULK_OUT: u8 = 0x01;
/// USB bulk-in endpoint address.
pub const EP_BULK_IN: u8 = 0x81;
/// Timeout of every bulk transfer, in milliseconds.
pub const BULK_TIMEOUT_MS: u64 = 100;
/// Wait before a block is sent again after a transport failure, in milliseconds.
pub const RETRY_BACKOFF_MS: u64 = 100;
/// Size of the buffer an acknowledgement is read into.
pub const FW_DNLD_RX_BUF_SIZE: usize = 2048;

/// The supported chip variants.
#[derive(Clone, Copy, Debug, PartialEq, Eq, Structural)]
pub enum MarvellChip {
    Avastar88W8782U,
    Avastar88W8897,
}

pub open spec fn spec_chip_of(product_id: u16) -> Result<MarvellChip, FwError> {
    if product_id == PID_88W8782U {
        Ok(MarvellChip::Avastar88W8782U)
    } else if product_id == PID_88W8897 {
        Ok(MarvellChip::Avastar88W8897)
    } else {
        Err(FwError::UnsupportedDevice { product_id })
    }
}

impl MarvellChip {
    /// The chip variant a product id names.
    pub fn from_product_id(product_id: u16) -> (r: Result<MarvellChip, FwError>)
        ensures
            r == spec_chip_of(product_id),
    {
        match product_id {
            PID_88W8782U => Ok(MarvellChip::Avastar88W8782U),
            PID_88W8897 => Ok(MarvellChip::Avastar88W8897),
            _ => Err(FwError::UnsupportedDevice { product_id }),
        }
    }
}

} // verus!
