use mvusb_fw::codec::ChipRevResponse;
use mvusb_fw::device::MarvellChip;
use mvusb_fw::error::FwError;
use mvusb_fw::probe::{
    chip_rev_from_bytes, chip_rev_of, chip_rev_request, ChipRev, CHIP_REV_RX_BUF_SIZE,
    EXTEND_HDR, EXTEND_MAGIC, EXTEND_V1, USB8797_A0, USB8797_B0,
};

#[test]
fn probe_request_is_sixteen_zeros() {
    assert_eq!(chip_rev_request(), vec![0u8; 16]);
}

#[test]
fn magic_is_built_from_its_words() {
    assert_eq!((EXTEND_HDR << 16) | EXTEND_V1, EXTEND_MAGIC);
}

#[test]
fn matching_magic_reports_device_revision() {
    let resp = ChipRevResponse { ack_marker: 1, sequence: 0, extend_magic: 0xAB95_0001, chip_revision: USB8797_B0 };
    assert_eq!(chip_rev_of(&resp), ChipRev { revision: USB8797_B0, from_response: true });
}

#[test]
fn mismatched_magic_reports_default_revision() {
    let resp = ChipRevResponse { ack_marker: 1, sequence: 0, extend_magic: 0, chip_revision: USB8797_B0 };
    assert_eq!(chip_rev_of(&resp), ChipRev { revision: USB8797_A0, from_response: false });
}

#[test]
fn probe_bytes_with_matching_magic() {
    let mut buf = vec![0u8; CHIP_REV_RX_BUF_SIZE];
    let resp = ChipRevResponse { ack_marker: 0, sequence: 0, extend_magic: EXTEND_MAGIC, chip_revision: 0x42 };
    buf[..16].copy_from_slice(&resp.encode());
    assert_eq!(chip_rev_from_bytes(&buf), Ok(ChipRev { revision: 0x42, from_response: true }));
}

#[test]
fn probe_bytes_with_zero_magic() {
    let resp = ChipRevResponse { ack_marker: 0, sequence: 0, extend_magic: 0, chip_revision: 0x42 };
    assert_eq!(
        chip_rev_from_bytes(&resp.encode()),
        Ok(ChipRev { revision: USB8797_A0, from_response: false })
    );
}

#[test]
fn probe_bytes_too_short() {
    assert_eq!(chip_rev_from_bytes(&[0u8; 15]), Err(FwError::TruncatedFrame));
}

#[test]
fn product_ids_map_to_chips() {
    assert_eq!(MarvellChip::from_product_id(0x2040), Ok(MarvellChip::Avastar88W8782U));
    assert_eq!(MarvellChip::from_product_id(0x2045), Ok(MarvellChip::Avastar88W8897));
    assert_eq!(
        MarvellChip::from_product_id(0x2041),
        Err(FwError::UnsupportedDevice { product_id: 0x2041 })
    );
}

#[test]
fn error_messages_are_nonempty() {
    assert_eq!(FwError::DeviceCrcError.message(), "FW received block with CRC error");
    assert!(!FwError::ExhaustedRetries.message().is_empty());
}
